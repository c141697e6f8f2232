//! The bounded queue between the reader and the writer.
//!
//! The queue is the pipeline's sole throttling mechanism: it accepts at most
//! `capacity` in-flight messages, hands them out strictly first-in
//! first-out, and never drops one — a rejected send returns the message to
//! the sender.  A full queue makes the reader wait (backpressure); a closed
//! queue means the consumer is gone and forwarding must fail loudly.

use vstd::prelude::*;

use crate::message::Message;

verus! {

/// Why a send was not accepted.  Either way the message comes back to the
/// caller: the queue never swallows one.
#[derive(Clone, Debug, PartialEq)]
pub enum SendRejected {
    /// The queue holds `capacity` messages; the sender must wait until the
    /// consumer takes one.
    Full(Message),
    /// The consumer is gone; no send can ever succeed again.
    Closed(Message),
}

/// A bounded, lossless, first-in-first-out queue of messages.
pub struct BoundedQueue {
    items: Vec<Message>,
    capacity: usize,
    closed: bool,
}

impl BoundedQueue {
    /// The queued messages, oldest first.
    pub closed spec fn contents(&self) -> Seq<Message> {
        self.items@
    }

    /// The fixed capacity the queue was created with.
    pub closed spec fn capacity_spec(&self) -> nat {
        self.capacity as nat
    }

    /// Whether the consumer side is gone.
    pub closed spec fn is_closed_spec(&self) -> bool {
        self.closed
    }

    /// The queue never holds more than its capacity.
    pub closed spec fn inv(&self) -> bool {
        self.items@.len() <= self.capacity
    }

    /// A fresh, open, empty queue.  Capacity must be positive: a queue that
    /// could accept nothing would deadlock the pipeline.
    pub fn new(capacity: usize) -> (q: BoundedQueue)
        requires
            capacity >= 1,
        ensures
            q.contents() == Seq::<Message>::empty(),
            q.capacity_spec() == capacity,
            !q.is_closed_spec(),
            q.inv(),
    {
        BoundedQueue { items: Vec::new(), capacity, closed: false }
    }

    /// How many messages are in flight.
    pub fn len(&self) -> (n: usize)
        ensures
            n == self.contents().len(),
    {
        self.items.len()
    }

    /// Whether the queue holds no message.
    pub fn is_empty(&self) -> (b: bool)
        ensures
            b == (self.contents().len() == 0),
    {
        self.items.len() == 0
    }

    /// Whether the queue is at capacity, so a send would have to wait.
    pub fn is_full(&self) -> (b: bool)
        ensures
            b == (self.contents().len() >= self.capacity_spec()),
    {
        self.items.len() >= self.capacity
    }

    /// Whether the consumer side is gone.
    pub fn is_closed(&self) -> (b: bool)
        ensures
            b == self.is_closed_spec(),
    {
        self.closed
    }

    /// Marks the consumer side gone: every later send is rejected.
    pub fn close(&mut self)
        ensures
            final(self).is_closed_spec(),
            final(self).contents() == old(self).contents(),
            final(self).capacity_spec() == old(self).capacity_spec(),
            old(self).inv() ==> final(self).inv(),
    {
        self.closed = true;
    }

    /// Offers one message.  An accepted message goes to the back of the
    /// queue; a rejected one is handed back untouched, so nothing is ever
    /// silently dropped.
    pub fn try_send(&mut self, m: Message) -> (r: Result<(), SendRejected>)
        requires
            old(self).inv(),
        ensures
            final(self).inv(),
            final(self).capacity_spec() == old(self).capacity_spec(),
            final(self).is_closed_spec() == old(self).is_closed_spec(),
            old(self).is_closed_spec() ==> r == Err::<(), SendRejected>(SendRejected::Closed(m))
                && final(self).contents() == old(self).contents(),
            !old(self).is_closed_spec() && old(self).contents().len() >= old(self).capacity_spec()
                ==> r == Err::<(), SendRejected>(SendRejected::Full(m))
                && final(self).contents() == old(self).contents(),
            !old(self).is_closed_spec() && old(self).contents().len() < old(self).capacity_spec()
                ==> r is Ok && final(self).contents() == old(self).contents().push(m),
    {
        if self.closed {
            Err(SendRejected::Closed(m))
        } else if self.items.len() >= self.capacity {
            Err(SendRejected::Full(m))
        } else {
            self.items.push(m);
            Ok(())
        }
    }

    /// Takes the oldest message, if any: strictly first-in first-out.
    pub fn try_recv(&mut self) -> (r: Option<Message>)
        requires
            old(self).inv(),
        ensures
            final(self).inv(),
            final(self).capacity_spec() == old(self).capacity_spec(),
            final(self).is_closed_spec() == old(self).is_closed_spec(),
            old(self).contents().len() == 0 ==> r is None
                && final(self).contents() == old(self).contents(),
            old(self).contents().len() > 0 ==> r == Option::Some(old(self).contents()[0])
                && final(self).contents() == old(self).contents().drop_first(),
    {
        if self.items.len() == 0 {
            None
        } else {
            Some(self.items.remove(0))
        }
    }
}

} // verus!
