//! A sequential model of one direction of the channel bridge: a bounded
//! first-in-first-out queue with one producer and one consumer. A full queue
//! refuses a send (the producer must wait for room: backpressure), an empty
//! queue yields nothing (the consumer must wait for data), and a closed
//! queue refuses new sends while still draining what it holds.

use vstd::prelude::*;

verus! {

/// Why a send was refused, handing the unsent value back: the queue already
/// holds `capacity` items, or the counterpart has gone away.
pub enum SendRefused<T> {
    Full(T),
    Closed(T),
}

/// A bounded FIFO hand-off queue. Its contents never exceed its capacity.
pub struct BoundedQueue<T> {
    items: Vec<T>,
    capacity: usize,
    closed: bool,
}

impl<T> BoundedQueue<T> {
    /// The queued values, oldest first.
    pub closed spec fn contents(&self) -> Seq<T> {
        self.items@
    }

    /// The bound the queue was made with.
    pub closed spec fn cap(&self) -> nat {
        self.capacity as nat
    }

    /// Whether the queue was closed.
    pub closed spec fn is_closed(&self) -> bool {
        self.closed
    }

    /// The queue never buffers beyond its bound.
    pub open spec fn wf(&self) -> bool {
        self.contents().len() <= self.cap()
    }

    /// An empty open queue with the given bound.
    pub fn new(capacity: usize) -> (q: BoundedQueue<T>)
        ensures
            q.contents() == Seq::<T>::empty(),
            q.cap() == capacity,
            !q.is_closed(),
            q.wf(),
    {
        BoundedQueue { items: Vec::new(), capacity, closed: false }
    }

    /// How many values are queued.
    pub fn len(&self) -> (n: usize)
        ensures
            n == self.contents().len(),
    {
        self.items.len()
    }

    /// Whether the queue holds its full bound.
    pub fn is_full(&self) -> (r: bool)
        ensures
            r == (self.contents().len() == self.cap()),
    {
        self.items.len() == self.capacity
    }

    /// Whether nothing is queued.
    pub fn is_empty(&self) -> (r: bool)
        ensures
            r == (self.contents().len() == 0),
    {
        self.items.len() == 0
    }

    /// Whether the queue will never yield again: closed and drained.
    pub fn terminated(&self) -> (r: bool)
        ensures
            r == (self.is_closed() && self.contents().len() == 0),
    {
        self.closed && self.items.len() == 0
    }

    /// Marks the counterpart as gone. What is already queued can still be
    /// drained; nothing new is accepted.
    pub fn close(&mut self)
        ensures
            final(self).is_closed(),
            final(self).contents() == old(self).contents(),
            final(self).cap() == old(self).cap(),
    {
        self.closed = true;
    }

    /// Offers a value. A closed queue refuses it (the pipeline has
    /// terminated); a full queue refuses it unsent (the producer must wait
    /// for the consumer to make room); otherwise it joins the back of the
    /// queue. The queue never grows beyond its bound.
    pub fn try_send(&mut self, t: T) -> (r: Result<(), SendRefused<T>>)
        requires
            old(self).wf(),
        ensures
            final(self).wf(),
            final(self).cap() == old(self).cap(),
            final(self).is_closed() == old(self).is_closed(),
            old(self).is_closed() ==> (r matches Err(SendRefused::Closed(x)) && x == t
                && final(self).contents() == old(self).contents()),
            !old(self).is_closed() && old(self).contents().len() == old(self).cap()
                ==> (r matches Err(SendRefused::Full(x)) && x == t
                && final(self).contents() == old(self).contents()),
            !old(self).is_closed() && old(self).contents().len() < old(self).cap() ==> r is Ok
                && final(self).contents() == old(self).contents().push(t),
    {
        if self.closed {
            Err(SendRefused::Closed(t))
        } else if self.items.len() == self.capacity {
            Err(SendRefused::Full(t))
        } else {
            self.items.push(t);
            Ok(())
        }
    }

    /// Takes the oldest queued value, or nothing when the queue is empty
    /// (the consumer must wait, or observe termination).
    pub fn try_recv(&mut self) -> (r: Option<T>)
        ensures
            final(self).cap() == old(self).cap(),
            final(self).is_closed() == old(self).is_closed(),
            old(self).contents().len() == 0 ==> r is None
                && final(self).contents() == old(self).contents(),
            old(self).contents().len() > 0 ==> r == Some(old(self).contents()[0])
                && final(self).contents() == old(self).contents().remove(0),
    {
        if self.items.len() == 0 {
            None
        } else {
            Some(self.items.remove(0))
        }
    }
}

} // verus!
