//! The bounded FIFO of movement commands between the listener and the
//! control loop.
//!
//! The queue keeps arrival order and has a fixed capacity.  Enqueuing onto
//! a full queue turns the command away without dropping anything already
//! queued and without failing: the producer holds the command and tries
//! again once the consumer has made room, which is the backpressure that
//! bounds end-to-end latency under a flooding sender.

use vstd::prelude::*;
use crate::command::Move;

verus! {

/// Capacity of the command queue as the vehicle configures it.
pub const DEFAULT_QUEUE_CAPACITY: usize = 10;

/// A bounded, ordered queue of pending movement commands.
pub struct CommandQueue {
    items: Vec<Move>,
    capacity: usize,
}

impl View for CommandQueue {
    type V = Seq<Move>;

    /// The pending commands, oldest first.
    closed spec fn view(&self) -> Seq<Move> {
        self.items@
    }
}

impl CommandQueue {
    /// The fixed capacity the queue was made with.
    pub closed spec fn spec_capacity(self) -> int {
        self.capacity as int
    }

    /// No more commands are pending than the capacity admits.
    pub open spec fn wf(self) -> bool {
        self@.len() <= self.spec_capacity()
    }

    /// An empty queue with the given capacity.
    pub fn new(capacity: usize) -> (q: CommandQueue)
        requires
            capacity >= 1,
        ensures
            q@ == Seq::<Move>::empty(),
            q.spec_capacity() == capacity,
            q.wf(),
    {
        CommandQueue { items: Vec::new(), capacity }
    }

    /// The fixed capacity.
    pub fn capacity(&self) -> (c: usize)
        ensures
            c == self.spec_capacity(),
    {
        self.capacity
    }

    /// How many commands are pending.
    pub fn len(&self) -> (n: usize)
        ensures
            n == self@.len(),
    {
        self.items.len()
    }

    /// Whether no command is pending.
    pub fn is_empty(&self) -> (b: bool)
        ensures
            b == (self@.len() == 0),
    {
        self.items.len() == 0
    }

    /// Whether the queue is at capacity, so that an enqueue would have to
    /// wait.
    pub fn is_full(&self) -> (b: bool)
        ensures
            b == (self@.len() >= self.spec_capacity()),
    {
        self.items.len() >= self.capacity
    }

    /// Append a command if there is room.  A full queue accepts nothing
    /// and loses nothing: the command is turned away for the producer to
    /// retry, and everything pending stays as it was.
    pub fn try_enqueue(&mut self, m: Move) -> (accepted: bool)
        ensures
            accepted == (old(self)@.len() < old(self).spec_capacity()),
            accepted ==> final(self)@ == old(self)@.push(m),
            !accepted ==> final(self)@ == old(self)@,
            final(self).spec_capacity() == old(self).spec_capacity(),
            old(self).wf() ==> final(self).wf(),
    {
        if self.items.len() < self.capacity {
            self.items.push(m);
            true
        } else {
            false
        }
    }

    /// Take the oldest pending command, if any: commands leave in exactly
    /// the order they arrived.
    pub fn dequeue(&mut self) -> (r: Option<Move>)
        ensures
            final(self).spec_capacity() == old(self).spec_capacity(),
            old(self)@.len() == 0 ==> r is None && final(self)@ == old(self)@,
            old(self)@.len() > 0 ==> r == Some(old(self)@[0]) && final(self)@ == old(self)@.skip(
                1,
            ),
            old(self).wf() ==> final(self).wf(),
    {
        if self.items.len() > 0 {
            let m = self.items.remove(0);
            proof {
                assert(self.items@ =~= old(self)@.skip(1));
            }
            Some(m)
        } else {
            None
        }
    }
}

} // verus!
