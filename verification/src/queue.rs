//! The bounded request queue shared between the session's producer side
//! and its event loop.  It is the only state the two tasks share: a
//! producer whose request does not fit must wait (backpressure), it is
//! never failed or dropped, and requests leave in the order they were
//! accepted.

use vstd::prelude::*;
use crate::config::{ClientSession, Qos};

verus! {

/// A client-issued request, as it sits in the queue until the event
/// loop flushes it to the wire.
#[derive(Clone, PartialEq, Eq, Debug)]
pub enum Request {
    /// Register interest in a topic filter at a delivery guarantee.
    Subscribe { topic: String, qos: Qos },
    /// Enqueue a message for delivery.
    Publish { topic: String, qos: Qos, retain: bool, payload: String },
    /// Request a graceful shutdown of the session.
    Disconnect,
}

/// What happened to a request offered to the queue.
#[derive(Clone, Copy, PartialEq, Eq, Structural, Debug)]
pub enum Enqueue {
    /// The request was taken into the queue.
    Accepted,
    /// The queue is at capacity; the caller must wait for the event loop
    /// to drain space and offer the request again.
    MustWait,
}

/// A first-in-first-out queue holding at most `cap()` requests.
pub struct RequestQueue {
    items: Vec<Request>,
    capacity: usize,
}

impl View for RequestQueue {
    type V = Seq<Request>;

    closed spec fn view(&self) -> Seq<Request> {
        self.items@
    }
}

impl RequestQueue {
    /// The capacity bound the queue was created with.
    pub closed spec fn cap(self) -> nat {
        self.capacity as nat
    }

    /// The queue never holds more than its capacity.
    pub open spec fn wf(self) -> bool {
        self@.len() <= self.cap()
    }

    /// An empty queue bounded by `capacity`.
    pub fn new(capacity: usize) -> (q: RequestQueue)
        ensures
            q.wf(),
            q@ == Seq::<Request>::empty(),
            q.cap() == capacity,
    {
        RequestQueue { items: Vec::new(), capacity }
    }

    pub fn len(&self) -> (n: usize)
        ensures
            n == self@.len(),
    {
        self.items.len()
    }

    pub fn capacity(&self) -> (c: usize)
        ensures
            c == self.cap(),
    {
        self.capacity
    }

    /// Offers a request.  Below capacity it is appended; at capacity the
    /// caller is told to wait and the queue is left exactly as it was —
    /// the request is neither rejected nor dropped.
    pub fn try_enqueue(&mut self, r: Request) -> (e: Enqueue)
        requires
            old(self).wf(),
        ensures
            final(self).wf(),
            final(self).cap() == old(self).cap(),
            old(self)@.len() < old(self).cap() ==> e == Enqueue::Accepted && final(self)@
                == old(self)@.push(r),
            old(self)@.len() >= old(self).cap() ==> e == Enqueue::MustWait && final(self)@
                == old(self)@,
    {
        if self.items.len() < self.capacity {
            self.items.push(r);
            Enqueue::Accepted
        } else {
            Enqueue::MustWait
        }
    }

    /// Takes the oldest request, if any: requests reach the wire in the
    /// order they were accepted.
    pub fn dequeue(&mut self) -> (r: Option<Request>)
        requires
            old(self).wf(),
        ensures
            final(self).wf(),
            final(self).cap() == old(self).cap(),
            old(self)@.len() == 0 ==> r is None && final(self)@ == old(self)@,
            old(self)@.len() > 0 ==> r == Some(old(self)@[0]) && final(self)@ == old(
                self,
            )@.subrange(1, old(self)@.len() as int),
    {
        if self.items.len() == 0 {
            None
        } else {
            let first = self.items.remove(0);
            proof {
                assert(self.items@ =~= old(self)@.subrange(1, old(self)@.len() as int));
            }
            Some(first)
        }
    }
}

impl ClientSession {
    /// The request queue this session's handle and event loop share,
    /// bounded by the session's capacity and empty at the start.
    pub fn open_queue(&self) -> (q: RequestQueue)
        ensures
            q.wf(),
            q@ == Seq::<Request>::empty(),
            q.cap() == self.capacity,
    {
        RequestQueue::new(self.capacity)
    }
}

} // verus!
