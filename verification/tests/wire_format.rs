//! Tests of the wire codec: framing layout, round trips, and every
//! rejection class.

use robot_core::codec::{decode, encode, DecodeError, ENCODED_FRAME_LEN, PAYLOAD_LEN};
use robot_core::command::Move;

fn cmd(translate_x: i32, translate_y: i32, rotate: i32) -> Move {
    Move { translate_x, translate_y, rotate }
}

#[test]
fn frame_length_is_fixed() {
    assert_eq!(PAYLOAD_LEN, 12);
    assert_eq!(ENCODED_FRAME_LEN, 14);
    let samples = vec![
        cmd(0, 0, 0),
        cmd(1000, -1000, 500),
        cmd(i32::MAX, i32::MIN, -1),
        cmd(7, 7, 7),
    ];
    for m in samples {
        assert_eq!(encode(&m).len(), ENCODED_FRAME_LEN);
    }
}

#[test]
fn stop_command_frame_layout() {
    // A payload of twelve zero bytes stuffs to thirteen code bytes of one,
    // then the terminator.
    let frame = encode(&Move::stop());
    let mut expected = vec![1u8; 13];
    expected.push(0);
    assert_eq!(frame, expected);
}

#[test]
fn small_command_frame_layout() {
    // Payload 01 00 00 00 02 00 00 00 03 00 00 00, stuffed byte for byte.
    let frame = encode(&cmd(1, 2, 3));
    assert_eq!(frame, vec![2, 1, 1, 1, 2, 2, 1, 1, 2, 3, 1, 1, 1, 0]);
}

#[test]
fn frame_has_single_zero_at_end() {
    let samples = vec![cmd(0, 0, 0), cmd(256, -256, 65536), cmd(-1, 1, 0)];
    for m in samples {
        let frame = encode(&m);
        assert_eq!(frame.iter().filter(|&&b| b == 0).count(), 1);
        assert_eq!(*frame.last().unwrap(), 0);
    }
}

#[test]
fn round_trip_simple() {
    let m = cmd(1000, 0, -200);
    assert_eq!(decode(&encode(&m)), Ok(m));
}

#[test]
fn round_trip_stop() {
    let m = Move::stop();
    assert_eq!(decode(&encode(&m)), Ok(m));
}

#[test]
fn round_trip_extremes() {
    let samples = vec![
        cmd(i32::MAX, i32::MIN, -1),
        cmd(i32::MIN, i32::MAX, i32::MIN),
        cmd(-1, -1, -1),
        cmd(255, 256, 257),
        cmd(0, i32::MIN, 0),
    ];
    for m in samples {
        assert_eq!(decode(&encode(&m)), Ok(m));
    }
}

#[test]
fn truncated_frame_is_rejected() {
    let m = cmd(42, -42, 4242);
    let mut frame = encode(&m);
    frame.pop();
    assert_eq!(decode(&frame), Err(DecodeError::Truncated));
}

#[test]
fn empty_input_is_rejected() {
    assert_eq!(decode(&[]), Err(DecodeError::Truncated));
}

#[test]
fn input_ending_inside_block_is_rejected() {
    // Code byte 5 promises four data bytes; only two arrive.
    assert_eq!(decode(&[5, 9, 9]), Err(DecodeError::Truncated));
}

#[test]
fn terminator_inside_block_is_rejected() {
    // Code byte 3 promises two data bytes, but the terminator interrupts.
    assert_eq!(decode(&[3, 1, 0]), Err(DecodeError::Malformed));
}

#[test]
fn short_payload_is_rejected() {
    // A well-formed frame whose payload is empty: not the command shape.
    assert_eq!(decode(&[1, 0]), Err(DecodeError::WrongShape));
}

#[test]
fn long_payload_is_rejected() {
    // A well-formed frame carrying thirteen payload bytes.
    let frame = vec![14, 9, 9, 9, 9, 9, 9, 9, 9, 9, 9, 9, 9, 9, 0];
    assert_eq!(decode(&frame), Err(DecodeError::WrongShape));
}

#[test]
fn bytes_after_terminator_are_ignored() {
    let m = cmd(-7, 8, -9);
    let mut frame = encode(&m);
    frame.extend_from_slice(&[99, 98, 97]);
    assert_eq!(decode(&frame), Ok(m));
}
