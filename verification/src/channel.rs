//! The bounded hand-off between the probe workers and the writer.
use vstd::prelude::*;
use std::collections::VecDeque;
use crate::measurement::Measurement;

verus! {

/// The number of measurements the hand-off holds when none other is asked for.
pub const CHANNEL_CAPACITY: usize = 33;

/// What became of a measurement offered to the hand-off.
#[derive(Debug, PartialEq, Eq)]
pub enum SendOutcome {
    /// The measurement is in the buffer.
    Accepted,
    /// The buffer is full. The measurement comes back untouched: the sender
    /// waits and offers it again once the receiver has taken one out.
    Full(Measurement),
}

/// What the receiver gets when it asks for the next measurement.
#[derive(Debug, PartialEq, Eq)]
pub enum RecvOutcome {
    /// The oldest measurement in the buffer.
    Item(Measurement),
    /// Nothing is buffered, but a sender is still there: wait.
    Empty,
    /// Nothing is buffered and every sender is gone: the stream has ended.
    Closed,
}

/// A first-in, first-out buffer of bounded size with any number of senders
/// and one receiver. It never holds more than its capacity and never drops
/// what it was given.
pub struct Aggregator {
    queue: VecDeque<Measurement>,
    capacity: usize,
    senders: usize,
}

impl Aggregator {
    /// The measurements in the buffer, oldest first.
    pub closed spec fn buffered(&self) -> Seq<Measurement> {
        self.queue@
    }

    pub closed spec fn capacity(&self) -> nat {
        self.capacity as nat
    }

    /// The number of senders that have not been released.
    pub closed spec fn senders(&self) -> nat {
        self.senders as nat
    }

    /// The buffer is within its bound, and the bound is positive.
    pub open spec fn wf(&self) -> bool {
        0 < self.capacity() && self.buffered().len() <= self.capacity()
    }

    /// Whether an offered measurement would be accepted.
    pub open spec fn has_room(&self) -> bool {
        self.buffered().len() < self.capacity()
    }

    /// An empty hand-off for `senders` senders that holds up to `capacity`
    /// measurements.
    pub fn new(capacity: usize, senders: usize) -> (channel: Aggregator)
        requires
            capacity > 0,
        ensures
            channel.wf(),
            channel.buffered() == Seq::<Measurement>::empty(),
            channel.capacity() == capacity,
            channel.senders() == senders,
    {
        Aggregator { queue: VecDeque::new(), capacity, senders }
    }

    /// An empty hand-off of the usual capacity.
    pub fn with_default_capacity(senders: usize) -> (channel: Aggregator)
        ensures
            channel.wf(),
            channel.buffered() == Seq::<Measurement>::empty(),
            channel.capacity() == CHANNEL_CAPACITY,
            channel.senders() == senders,
    {
        Aggregator::new(CHANNEL_CAPACITY, senders)
    }

    pub fn len(&self) -> (n: usize)
        ensures
            n == self.buffered().len(),
    {
        self.queue.len()
    }

    pub fn open_senders(&self) -> (n: usize)
        ensures
            n == self.senders(),
    {
        self.senders
    }

    /// Offers a measurement. It is appended if there is room; otherwise the
    /// buffer stays as it is and the measurement is handed back.
    pub fn try_send(&mut self, measurement: Measurement) -> (outcome: SendOutcome)
        requires
            old(self).wf(),
        ensures
            final(self).wf(),
            final(self).capacity() == old(self).capacity(),
            final(self).senders() == old(self).senders(),
            old(self).has_room() ==> {
                &&& outcome is Accepted
                &&& final(self).buffered() == old(self).buffered().push(measurement)
            },
            !old(self).has_room() ==> {
                &&& outcome == SendOutcome::Full(measurement)
                &&& final(self).buffered() == old(self).buffered()
            },
    {
        if self.queue.len() < self.capacity {
            self.queue.push_back(measurement);
            SendOutcome::Accepted
        } else {
            SendOutcome::Full(measurement)
        }
    }

    /// Takes the oldest measurement out, if there is one. Taking one out
    /// always leaves room for a sender that was turned away.
    pub fn recv(&mut self) -> (outcome: RecvOutcome)
        requires
            old(self).wf(),
        ensures
            final(self).wf(),
            final(self).capacity() == old(self).capacity(),
            final(self).senders() == old(self).senders(),
            old(self).buffered().len() > 0 ==> {
                &&& outcome == RecvOutcome::Item(old(self).buffered()[0])
                &&& final(self).buffered() == old(self).buffered().drop_first()
                &&& final(self).has_room()
            },
            old(self).buffered().len() == 0 ==> {
                &&& final(self).buffered() == old(self).buffered()
                &&& old(self).senders() == 0 ==> outcome is Closed
                &&& old(self).senders() > 0 ==> outcome is Empty
            },
    {
        match self.queue.pop_front() {
            Some(measurement) => {
                assert(self.queue@ =~= old(self).queue@.drop_first());
                RecvOutcome::Item(measurement)
            },
            None => {
                if self.senders == 0 {
                    RecvOutcome::Closed
                } else {
                    RecvOutcome::Empty
                }
            },
        }
    }

    /// Releases one sender. Once the last one is released and the buffer is
    /// drained, the receiver sees the end of the stream.
    pub fn release_sender(&mut self)
        ensures
            final(self).buffered() == old(self).buffered(),
            final(self).capacity() == old(self).capacity(),
            final(self).senders() == if old(self).senders() == 0 {
                0
            } else {
                old(self).senders() - 1
            },
    {
        if self.senders > 0 {
            self.senders = self.senders - 1;
        }
    }
}

/// A full hand-off holds at least one measurement, so the receiver can
/// always take one out of it, and what it takes out makes room for exactly
/// the sender that was turned away: the buffer is then one short of full.
pub proof fn lemma_full_channel_drains(channel: Aggregator)
    requires
        channel.wf(),
        !channel.has_room(),
    ensures
        channel.buffered().len() > 0,
        channel.buffered().drop_first().len() + 1 == channel.capacity(),
{
}

} // verus!
