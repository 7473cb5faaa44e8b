//! Wire codec for movement commands: a fixed-shape payload of three
//! little-endian 32-bit axis values, stuffed so that a single reserved
//! terminator byte ends the frame unambiguously, with no length prefix.
//!
//! Every occurrence of the terminator value inside the payload is escaped by
//! the stuffing scheme: the frame is a chain of blocks, each a code byte
//! (one plus the count of data bytes that follow) and that many non-zero
//! data bytes, with an implied zero joining consecutive blocks.  A zero byte
//! therefore appears exactly once per frame, as its final byte.

use vstd::prelude::*;
use vstd::bytes::{
    lemma_auto_spec_u32_to_from_le_bytes, spec_u32_from_le_bytes, spec_u32_to_le_bytes,
    u32_from_le_bytes, u32_to_le_bytes,
};
use vstd::slice::slice_subrange;
use crate::command::Move;

verus! {

/// Bytes in the fixed-shape payload: three 32-bit axis values.
pub const PAYLOAD_LEN: usize = 12;

/// Exact length of every encoded frame: the payload, one stuffing code
/// byte, and the terminator.  Fixed because no field is variable-length.
pub const ENCODED_FRAME_LEN: usize = PAYLOAD_LEN + 2;

/// Why a received frame was rejected.  Rejection is non-fatal to the
/// caller: the frame is discarded and later input is processed.
#[derive(Clone, Copy, Debug, PartialEq, Eq, Structural)]
pub enum DecodeError {
    /// The input ended before the frame terminator.
    Truncated,
    /// The terminator interrupted a stuffed block, so the framing is
    /// inconsistent.
    Malformed,
    /// The frame was delimited correctly but its payload is not the fixed
    /// command shape.
    WrongShape,
}

/// Index of the first zero byte of `s`, or `s.len()` if `s` has none.
pub open spec fn first_zero(s: Seq<u8>) -> nat
    decreases s.len(),
{
    if s.len() == 0 {
        0
    } else if s[0] == 0 {
        0
    } else {
        1 + first_zero(s.skip(1))
    }
}

/// The stuffed body of a frame holding payload `s`: blocks of a code byte
/// followed by the run of non-zero payload bytes it covers.  Meaningful for
/// payloads of at most 254 bytes, where every code fits one byte.
pub open spec fn spec_cobs_body(s: Seq<u8>) -> Seq<u8>
    recommends
        s.len() <= 254,
    decreases s.len(),
{
    let i = first_zero(s);
    if i >= s.len() {
        seq![(i + 1) as u8] + s
    } else {
        seq![(i + 1) as u8] + s.take(i as int) + spec_cobs_body(s.skip((i + 1) as int))
    }
}

/// The payload of three little-endian 32-bit axis values.
pub open spec fn spec_payload(m: Move) -> Seq<u8> {
    spec_u32_to_le_bytes(m.translate_x as u32) + spec_u32_to_le_bytes(m.translate_y as u32)
        + spec_u32_to_le_bytes(m.rotate as u32)
}

/// The complete frame for a command: stuffed payload plus terminator.
pub open spec fn spec_frame(m: Move) -> Seq<u8> {
    spec_cobs_body(spec_payload(m)) + seq![0u8]
}

/// Unstuff one frame from the front of `s`: the payload bytes covered by
/// the blocks up to the first terminator.  Bytes after the terminator are
/// ignored.  Fails `Truncated` if the input ends before the terminator, and
/// `Malformed` if the terminator lands inside a block's data region.
pub open spec fn spec_cobs_decode(s: Seq<u8>) -> Result<Seq<u8>, DecodeError>
    decreases s.len(),
{
    if s.len() == 0 {
        Err(DecodeError::Truncated)
    } else if s[0] == 0 {
        Ok(Seq::empty())
    } else {
        let c = s[0] as int;
        if exists|j: int| 1 <= j < c && j < s.len() && s[j] == 0 {
            Err(DecodeError::Malformed)
        } else if s.len() <= c {
            Err(DecodeError::Truncated)
        } else if s[c] == 0 {
            Ok(s.subrange(1, c))
        } else {
            match spec_cobs_decode(s.skip(c)) {
                Ok(rest) => Ok(s.subrange(1, c) + seq![0u8] + rest),
                Err(e) => Err(e),
            }
        }
    }
}

/// The command held by a fixed-shape payload.
pub open spec fn spec_cmd_of_payload(p: Seq<u8>) -> Move
    recommends
        p.len() == PAYLOAD_LEN,
{
    Move {
        translate_x: spec_u32_from_le_bytes(p.subrange(0, 4)) as i32,
        translate_y: spec_u32_from_le_bytes(p.subrange(4, 8)) as i32,
        rotate: spec_u32_from_le_bytes(p.subrange(8, 12)) as i32,
    }
}

/// What decoding an input yields: exactly one frame is consumed, and its
/// payload must have the fixed command shape.
pub open spec fn spec_decode(s: Seq<u8>) -> Result<Move, DecodeError> {
    match spec_cobs_decode(s) {
        Ok(p) => if p.len() == PAYLOAD_LEN {
            Ok(spec_cmd_of_payload(p))
        } else {
            Err(DecodeError::WrongShape)
        },
        Err(e) => Err(e),
    }
}

proof fn lemma_first_zero_props(s: Seq<u8>)
    ensures
        first_zero(s) <= s.len(),
        forall|j: int| 0 <= j < first_zero(s) ==> s[j] != 0,
        first_zero(s) < s.len() ==> s[first_zero(s) as int] == 0,
    decreases s.len(),
{
    if s.len() == 0 {
    } else if s[0] == 0 {
    } else {
        lemma_first_zero_props(s.skip(1));
        assert forall|j: int| 0 <= j < first_zero(s) implies s[j] != 0 by {
            if j > 0 {
                assert(s.skip(1)[j - 1] == s[j]);
            }
        }
        if first_zero(s) < s.len() {
            assert(s.skip(1)[first_zero(s) - 1] == s[first_zero(s) as int]);
        }
    }
}

proof fn lemma_first_zero_is(s: Seq<u8>, i: int)
    requires
        0 <= i <= s.len(),
        forall|j: int| 0 <= j < i ==> s[j] != 0,
        i < s.len() ==> s[i] == 0,
    ensures
        first_zero(s) == i,
    decreases s.len(),
{
    if i == 0 {
    } else {
        assert forall|j: int| 0 <= j < i - 1 implies s.skip(1)[j] != 0 by {
            assert(s.skip(1)[j] == s[j + 1]);
        }
        if i - 1 < s.skip(1).len() {
            assert(s.skip(1)[i - 1] == s[i]);
        }
        lemma_first_zero_is(s.skip(1), i - 1);
    }
}

/// The stuffed body is always exactly one byte longer than the payload.
pub proof fn lemma_cobs_body_len(s: Seq<u8>)
    ensures
        spec_cobs_body(s).len() == s.len() + 1,
    decreases s.len(),
{
    lemma_first_zero_props(s);
    let i = first_zero(s);
    if i < s.len() {
        lemma_cobs_body_len(s.skip((i + 1) as int));
    }
}

/// Unstuffing a stuffed payload gives the payload back, for every payload
/// that fits the one-byte block codes.
pub proof fn lemma_cobs_round_trip(p: Seq<u8>)
    requires
        p.len() <= 254,
    ensures
        spec_cobs_decode(spec_cobs_body(p) + seq![0u8]) == Ok::<Seq<u8>, DecodeError>(p),
    decreases p.len(),
{
    lemma_first_zero_props(p);
    lemma_cobs_body_len(p);
    let i = first_zero(p) as int;
    let body = spec_cobs_body(p);
    let s = body + seq![0u8];
    let c = i + 1;
    assert(s[0] == (c as u8));
    assert(s[0] as int == c);
    assert forall|j: int| 1 <= j < c && j < s.len() implies s[j] != 0 by {
        assert(s[j] == p[j - 1]);
    }
    if i == p.len() {
        assert(s.len() == p.len() + 2);
        assert(s[c] == 0);
        assert(s.subrange(1, c) =~= p);
    } else {
        let rest = p.skip(i + 1);
        lemma_first_zero_props(rest);
        lemma_cobs_body_len(rest);
        let rest_body = spec_cobs_body(rest);
        // the code byte opening the next block is never zero
        let fz2 = first_zero(rest) as int;
        assert(rest_body[0] == ((fz2 + 1) as u8));
        assert(rest_body[0] != 0);
        assert(s[c] == rest_body[0]);
        assert(s.skip(c) =~= rest_body + seq![0u8]);
        lemma_cobs_round_trip(rest);
        assert(s.subrange(1, c) =~= p.take(i));
        assert(p[i] == 0);
        assert(p.take(i) + seq![0u8] + rest =~= p);
    }
}

/// Reading back a fixed-shape payload gives the command it was built from.
pub proof fn lemma_payload_round_trip(m: Move)
    ensures
        spec_payload(m).len() == PAYLOAD_LEN,
        spec_cmd_of_payload(spec_payload(m)) == m,
{
    lemma_auto_spec_u32_to_from_le_bytes();
    let p = spec_payload(m);
    assert(p.subrange(0, 4) =~= spec_u32_to_le_bytes(m.translate_x as u32));
    assert(p.subrange(4, 8) =~= spec_u32_to_le_bytes(m.translate_y as u32));
    assert(p.subrange(8, 12) =~= spec_u32_to_le_bytes(m.rotate as u32));
    let x = m.translate_x;
    let y = m.translate_y;
    let r = m.rotate;
    assert(x as u32 as i32 == x) by (bit_vector);
    assert(y as u32 as i32 == y) by (bit_vector);
    assert(r as u32 as i32 == r) by (bit_vector);
}

/// Round trip: decoding the frame encoded from any representable command
/// yields exactly that command.
pub proof fn lemma_encode_decode_round_trip(m: Move)
    ensures
        spec_decode(spec_frame(m)) == Ok::<Move, DecodeError>(m),
{
    lemma_payload_round_trip(m);
    lemma_cobs_round_trip(spec_payload(m));
}

fn cobs_encode_into(data: &[u8], start: usize, out: &mut Vec<u8>)
    requires
        start <= data@.len(),
        data@.len() <= 254,
    ensures
        final(out)@ == old(out)@ + spec_cobs_body(data@.skip(start as int)),
    decreases data@.len() - start,
{
    let ghost out0 = out@;
    let ghost s = data@.skip(start as int);
    let n = data.len();
    let mut i = start;
    while i < n && data[i] != 0
        invariant
            start <= i <= n,
            n == data@.len(),
            forall|k: int| start <= k < i ==> data@[k] != 0,
        decreases n - i,
    {
        i += 1;
    }
    proof {
        assert forall|j: int| 0 <= j < i - start implies s[j] != 0 by {
            assert(s[j] == data@[start + j]);
        }
        if i < n {
            assert(s[i - start] == data@[i as int]);
        }
        lemma_first_zero_is(s, i - start);
    }
    let code: u8 = (i - start + 1) as u8;
    out.push(code);
    let mut k = start;
    while k < i
        invariant
            start <= k <= i <= n,
            n == data@.len(),
            out@ == out0 + seq![code] + data@.subrange(start as int, k as int),
        decreases i - k,
    {
        let b = data[k];
        out.push(b);
        k += 1;
        proof {
            assert(out@ =~= out0 + seq![code] + data@.subrange(start as int, k as int));
        }
    }
    if i == n {
        proof {
            assert(s =~= data@.subrange(start as int, n as int));
            assert(out@ =~= out0 + spec_cobs_body(s));
        }
    } else {
        cobs_encode_into(data, i + 1, out);
        proof {
            assert(s.take(i - start) =~= data@.subrange(start as int, i as int));
            assert(s.skip(i - start + 1) =~= data@.skip(i + 1));
            assert(out@ =~= out0 + spec_cobs_body(s));
        }
    }
}

/// Encode a command as one self-terminating frame.  The frame length is the
/// same for every command: no field is variable-length.
pub fn encode(m: &Move) -> (frame: Vec<u8>)
    ensures
        frame@ == spec_frame(*m),
        frame@.len() == ENCODED_FRAME_LEN,
{
    let mut payload: Vec<u8> = Vec::new();
    let mut b = u32_to_le_bytes(m.translate_x as u32);
    payload.append(&mut b);
    let mut b = u32_to_le_bytes(m.translate_y as u32);
    payload.append(&mut b);
    let mut b = u32_to_le_bytes(m.rotate as u32);
    payload.append(&mut b);
    proof {
        lemma_payload_round_trip(*m);
        assert(payload@ =~= spec_payload(*m));
    }
    let mut frame: Vec<u8> = Vec::new();
    cobs_encode_into(payload.as_slice(), 0, &mut frame);
    frame.push(0);
    proof {
        assert(payload@.skip(0) =~= payload@);
        lemma_cobs_body_len(payload@);
        assert(frame@ =~= spec_frame(*m));
    }
    frame
}

fn cobs_decode_into(data: &[u8], start: usize, out: &mut Vec<u8>) -> (r: Result<(), DecodeError>)
    requires
        start <= data@.len(),
    ensures
        match spec_cobs_decode(data@.skip(start as int)) {
            Ok(p) => r is Ok && final(out)@ == old(out)@ + p,
            Err(e) => r == Err::<(), DecodeError>(e),
        },
    decreases data@.len() - start,
{
    let ghost out0 = out@;
    let ghost s = data@.skip(start as int);
    let n = data.len();
    if start >= n {
        return Err(DecodeError::Truncated);
    }
    let c = data[start];
    if c == 0 {
        proof {
            assert(out@ =~= out0 + Seq::<u8>::empty());
        }
        return Ok(());
    }
    let c_us = c as usize;
    let mut j: usize = 1;
    while j < c_us && j < n - start && data[start + j] != 0
        invariant
            1 <= j,
            j <= c_us,
            start < n,
            n == data@.len(),
            c_us == c as usize,
            forall|k: int| 1 <= k < j ==> start + k < n && #[trigger] data@[start + k] != 0,
        decreases c_us - j,
    {
        j += 1;
    }
    if j < c_us {
        if j < n - start {
            // the terminator sits inside this block's data region
            proof {
                assert(s[j as int] == data@[start + j]);
                assert(1 <= j < c as int && j < s.len() && s[j as int] == 0);
            }
            return Err(DecodeError::Malformed);
        } else {
            // the input ran out inside this block: no terminator at all
            proof {
                assert forall|q: int| !(1 <= q < c as int && q < s.len() && s[q] == 0) by {
                    if 1 <= q < c as int && q < s.len() {
                        assert(s[q] == data@[start + q]);
                    }
                }
                assert(s.len() <= c as int);
            }
            return Err(DecodeError::Truncated);
        }
    }
    // all c - 1 data bytes of this block are present and non-zero
    proof {
        assert forall|q: int| !(1 <= q < c as int && q < s.len() && s[q] == 0) by {
            if 1 <= q < c as int && q < s.len() {
                assert(s[q] == data@[start + q]);
            }
        }
    }
    if c_us >= n - start {
        return Err(DecodeError::Truncated);
    }
    let mut k: usize = 1;
    while k < c_us
        invariant
            1 <= k <= c_us,
            start < n,
            start + c_us < n,
            n == data@.len(),
            c_us == c as usize,
            forall|q: int| 1 <= q < c_us ==> start + q < n && #[trigger] data@[start + q] != 0,
            out@ == out0 + data@.subrange(start + 1, start + k),
        decreases c_us - k,
    {
        let b = data[start + k];
        out.push(b);
        k += 1;
        proof {
            assert(out@ =~= out0 + data@.subrange(start + 1, start + k));
        }
    }
    proof {
        assert(s.subrange(1, c as int) =~= data@.subrange(start + 1, start + c_us));
    }
    if data[start + c_us] == 0 {
        proof {
            assert(s[c as int] == data@[start + c_us]);
        }
        Ok(())
    } else {
        proof {
            assert(s[c as int] == data@[start + c_us]);
            assert(s.skip(c as int) =~= data@.skip(start + c_us));
        }
        out.push(0);
        let r = cobs_decode_into(data, start + c_us, out);
        proof {
            if let Ok(rest) = spec_cobs_decode(data@.skip(start + c_us)) {
                assert(out@ =~= out0 + (s.subrange(1, c as int) + seq![0u8] + rest));
            }
        }
        r
    }
}

/// Decode exactly one frame from the received input.  Succeeds if and only
/// if the input carries a well-stuffed, terminated frame whose payload has
/// the fixed command shape; each failure names what was wrong.
pub fn decode(data: &[u8]) -> (r: Result<Move, DecodeError>)
    ensures
        r == spec_decode(data@),
{
    let mut payload: Vec<u8> = Vec::new();
    let res = cobs_decode_into(data, 0, &mut payload);
    proof {
        assert(data@.skip(0) =~= data@);
    }
    match res {
        Err(e) => Err(e),
        Ok(()) => {
            if payload.len() != PAYLOAD_LEN {
                Err(DecodeError::WrongShape)
            } else {
                let x = u32_from_le_bytes(slice_subrange(payload.as_slice(), 0, 4));
                let y = u32_from_le_bytes(slice_subrange(payload.as_slice(), 4, 8));
                let r = u32_from_le_bytes(slice_subrange(payload.as_slice(), 8, 12));
                Ok(Move { translate_x: x as i32, translate_y: y as i32, rotate: r as i32 })
            }
        },
    }
}

} // verus!
