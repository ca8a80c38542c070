//! The staged channel: a bounded FIFO queue of tagged requests connecting
//! one stage of the pipeline to the next.
//!
//! Capacity is fixed at construction and acts as backpressure: once the
//! queue is full a producer must wait or fail rather than the queue growing
//! without bound. The live system's producers wait on a deadline; here the
//! queue itself only reports "accepted", "congested" or "closed", and the
//! timeout-bounded forward built on top translates congestion at the
//! deadline into a typed error.

use vstd::prelude::*;

verus! {

/// The capacity every stage uses unless configured otherwise.
pub const DEFAULT_CHANNEL_CAPACITY: usize = 1024;

/// How one attempt to enqueue ends. A rejected request is handed back to
/// the producer rather than dropped.
pub enum TrySend<R> {
    /// The request was appended to the queue.
    Accepted,
    /// The queue is at capacity; the request comes back to the producer.
    Congested(R),
    /// The consuming stage is gone; the request comes back to the producer.
    Closed(R),
}

/// An open channel with room left accepts the next request at once.
pub open spec fn can_accept<R>(c: StagedChannel<R>) -> bool {
    !c.is_closed() && c@.len() < c.cap()
}

/// A bounded multi-producer/single-consumer FIFO queue of requests.
pub struct StagedChannel<R> {
    items: Vec<R>,
    capacity: usize,
    closed: bool,
}

impl<R> View for StagedChannel<R> {
    type V = Seq<R>;

    closed spec fn view(&self) -> Seq<R> {
        self.items@
    }
}

impl<R> StagedChannel<R> {
    /// The fixed bound this channel was built with.
    pub closed spec fn cap(&self) -> nat {
        self.capacity as nat
    }

    /// Whether the consuming stage has shut the channel.
    pub closed spec fn is_closed(&self) -> bool {
        self.closed
    }

    /// The queue never outgrows its fixed bound.
    pub open spec fn wf(&self) -> bool {
        self@.len() <= self.cap() && 1 <= self.cap()
    }

    /// A fresh open channel with the given fixed capacity.
    pub fn bounded(capacity: usize) -> (c: StagedChannel<R>)
        requires
            1 <= capacity,
        ensures
            c.wf(),
            c@ == Seq::<R>::empty(),
            c.cap() == capacity,
            !c.is_closed(),
    {
        StagedChannel { items: Vec::new(), capacity, closed: false }
    }

    /// How many requests wait in the queue.
    pub fn len(&self) -> (n: usize)
        ensures
            n == self@.len(),
    {
        self.items.len()
    }

    /// Try to enqueue one request: appended if the channel is open and
    /// below capacity, otherwise handed back with the reason.
    pub fn try_send(&mut self, request: R) -> (res: TrySend<R>)
        requires
            old(self).wf(),
        ensures
            final(self).wf(),
            final(self).cap() == old(self).cap(),
            final(self).is_closed() == old(self).is_closed(),
            old(self).is_closed() ==> res == TrySend::Closed(request) && final(self)@ == old(
                self,
            )@,
            !old(self).is_closed() && old(self)@.len() == old(self).cap() ==> res
                == TrySend::Congested(request) && final(self)@ == old(self)@,
            !old(self).is_closed() && old(self)@.len() < old(self).cap() ==> res
                == TrySend::<R>::Accepted && final(self)@ == old(self)@.push(request),
    {
        if self.closed {
            TrySend::Closed(request)
        } else if self.items.len() == self.capacity {
            TrySend::Congested(request)
        } else {
            self.items.push(request);
            TrySend::Accepted
        }
    }

    /// Take the oldest waiting request, if any: delivery is FIFO.
    pub fn recv(&mut self) -> (res: Option<R>)
        requires
            old(self).wf(),
        ensures
            final(self).wf(),
            final(self).cap() == old(self).cap(),
            final(self).is_closed() == old(self).is_closed(),
            old(self)@.len() == 0 ==> ((res matches None) && final(self)@ == old(self)@),
            old(self)@.len() > 0 ==> res == Some(old(self)@[0]) && final(self)@ == old(
                self,
            )@.subrange(1, old(self)@.len() as int),
    {
        if self.items.len() == 0 {
            None
        } else {
            Some(self.items.remove(0))
        }
    }

    /// The consuming stage shuts the channel; producers are refused from
    /// here on, but requests already queued stay readable.
    pub fn close(&mut self)
        requires
            old(self).wf(),
        ensures
            final(self).wf(),
            final(self).cap() == old(self).cap(),
            final(self).is_closed(),
            final(self)@ == old(self)@,
    {
        self.closed = true;
    }
}

} // verus!
