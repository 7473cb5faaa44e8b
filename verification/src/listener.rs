//! The command listener's decision logic: what to do with each receive
//! attempt on the network endpoint.
//!
//! The binary owns the socket; after every receive it reports what
//! happened here and performs the action handed back.  Valid frames are
//! forwarded, bad frames are discarded with a warning and the task keeps
//! receiving, a closed peer or a gone consumer ends the task cleanly, and
//! transport failures end it with an error for the supervisor's restart
//! policy.

use vstd::prelude::*;
use crate::codec;
use crate::codec::DecodeError;
use crate::command::Move;

verus! {

/// What one receive attempt on the connectionless endpoint yielded.
pub enum RecvOutcome {
    /// A datagram arrived carrying these bytes.
    Datagram(Vec<u8>),
    /// A zero-length receive: the peer closed.
    PeerClosed,
    /// The transport reported an end of stream where none was expected.
    EndOfStream,
    /// Any other transport failure.
    TransportError,
}

/// The fatal ways the listener task can end.
#[derive(Clone, Copy, Debug, PartialEq, Eq, Structural)]
pub enum ListenerError {
    /// An unexpected end of stream: a deliberate protocol error, distinct
    /// from other transport failures.
    UnexpectedEndOfStream,
    /// An unhandled transport failure.
    Io,
}

/// What the caller must do after one listener step.
#[derive(Clone, Copy, Debug, PartialEq, Eq, Structural)]
pub enum ListenerAction {
    /// Enqueue this command for the control loop.
    Forward(Move),
    /// Drop an undecodable frame, log a warning with the running receive
    /// count, and keep receiving.
    Discard(DecodeError),
    /// Keep receiving.
    Continue,
    /// Terminate the task cleanly: not an error.
    Shutdown,
    /// Fail the task with this error; a supervisor may restart it.
    Fail(ListenerError),
}

/// The listener's own state: a running count of successfully decoded
/// commands, kept only for diagnostics and monotonically increasing.
pub struct Listener {
    /// How many commands have been decoded successfully so far.
    pub received_count: u64,
}

impl Listener {
    /// A listener that has received nothing yet.
    pub fn new() -> (l: Listener)
        ensures
            l.received_count == 0,
    {
        Listener { received_count: 0 }
    }

    /// Decide what to do with one receive attempt.  Exactly the datagrams
    /// that decode are forwarded and counted; an undecodable frame leaves
    /// the count unchanged and forwards nothing.
    pub fn on_recv(&mut self, outcome: RecvOutcome) -> (action: ListenerAction)
        requires
            old(self).received_count < u64::MAX,
        ensures
            match outcome {
                RecvOutcome::Datagram(b) => match codec::spec_decode(b@) {
                    Ok(m) => action == ListenerAction::Forward(m) && final(self).received_count
                        == old(self).received_count + 1,
                    Err(e) => action == ListenerAction::Discard(e) && final(self).received_count
                        == old(self).received_count,
                },
                RecvOutcome::PeerClosed => action == ListenerAction::Shutdown
                    && final(self).received_count == old(self).received_count,
                RecvOutcome::EndOfStream => action == ListenerAction::Fail(
                    ListenerError::UnexpectedEndOfStream,
                ) && final(self).received_count == old(self).received_count,
                RecvOutcome::TransportError => action == ListenerAction::Fail(ListenerError::Io)
                    && final(self).received_count == old(self).received_count,
            },
    {
        match outcome {
            RecvOutcome::Datagram(buf) => match codec::decode(buf.as_slice()) {
                Ok(m) => {
                    self.received_count = self.received_count + 1;
                    ListenerAction::Forward(m)
                },
                Err(e) => ListenerAction::Discard(e),
            },
            RecvOutcome::PeerClosed => ListenerAction::Shutdown,
            RecvOutcome::EndOfStream => ListenerAction::Fail(ListenerError::UnexpectedEndOfStream),
            RecvOutcome::TransportError => ListenerAction::Fail(ListenerError::Io),
        }
    }
}

/// The follow-up after handing a forwarded command to the queue's
/// consumer: a consumer that has gone away means shutdown is already in
/// progress, so the task ends cleanly rather than failing.
pub fn on_enqueue_result(delivered: bool) -> (action: ListenerAction)
    ensures
        action == if delivered {
            ListenerAction::Continue
        } else {
            ListenerAction::Shutdown
        },
{
    if delivered {
        ListenerAction::Continue
    } else {
        ListenerAction::Shutdown
    }
}

} // verus!
