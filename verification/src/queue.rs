//! The transport queue: the FIFO of raw fragments that bridges an
//! event-driven notification or write callback to the pull-based
//! reassembler.
//!
//! The queue itself is single-threaded and fully specified: fragments come
//! out in arrival order, none is reordered or dropped except by an explicit
//! [`clear`](TransportQueue::clear).  The surrounding application wraps one
//! queue per session in its own mutex and condition signal to add the
//! blocking and timed-blocking behaviour that a callback-driven transport
//! needs; no queue is ever shared between sessions through a global.

use std::collections::VecDeque;
use vstd::prelude::*;

verus! {

/// A FIFO of byte buffers, oldest first.
pub struct TransportQueue {
    items: VecDeque<Vec<u8>>,
}

impl View for TransportQueue {
    type V = Seq<Seq<u8>>;

    closed spec fn view(&self) -> Seq<Seq<u8>> {
        self.items@.map_values(|v: Vec<u8>| v@)
    }
}

impl TransportQueue {
    /// An empty queue.
    pub fn new() -> (q: TransportQueue)
        ensures
            q@.len() == 0,
    {
        TransportQueue { items: VecDeque::new() }
    }

    /// How many fragments are queued.
    pub fn len(&self) -> (n: usize)
        ensures
            n == self@.len(),
    {
        self.items.len()
    }

    /// Whether no fragment is queued.
    pub fn is_empty(&self) -> (r: bool)
        ensures
            r == (self@.len() == 0),
    {
        self.items.len() == 0
    }

    /// Enqueue a fragment behind all already queued.
    pub fn push(&mut self, value: Vec<u8>)
        ensures
            final(self)@ == old(self)@.push(value@),
    {
        self.items.push_back(value);
        proof {
            assert(self@ =~= old(self)@.push(value@));
        }
    }

    /// Dequeue the oldest fragment, or nothing when the queue is empty.
    /// One pop yields exactly one previously pushed fragment; the rest
    /// keep their order.
    pub fn pop(&mut self) -> (r: Option<Vec<u8>>)
        ensures
            old(self)@.len() == 0 ==> r is None && final(self)@ == old(self)@,
            old(self)@.len() > 0 ==> {
                &&& r matches Some(v) && v@ == old(self)@[0]
                &&& final(self)@ == old(self)@.subrange(1, old(self)@.len() as int)
            },
    {
        let r = self.items.pop_front();
        proof {
            if old(self)@.len() == 0 {
                assert(self@ =~= old(self)@);
            } else {
                assert(self@ =~= old(self)@.subrange(1, old(self)@.len() as int));
            }
        }
        r
    }

    /// Discard every queued fragment, as the session reset does after the
    /// clear command.
    pub fn clear(&mut self)
        ensures
            final(self)@.len() == 0,
    {
        self.items.clear();
    }
}

} // verus!
