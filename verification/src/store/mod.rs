//! Where measurements are kept.
pub mod influxdb;

use vstd::prelude::*;
use crate::measurement::Measurement;

verus! {

/// One call made on a store.
pub enum StoreCall {
    /// `add_measurement`, with the measurement it was given.
    Add(Measurement),
    /// `flush`.
    Flush,
}

/// The calls that hand each of `items` to a store, in order.
pub open spec fn adds(items: Seq<Measurement>) -> Seq<StoreCall> {
    items.map_values(|m: Measurement| StoreCall::Add(m))
}

/// A sink for measurements that buffers what it is given until it is
/// flushed. The writer needs nothing else of a backend, so any type with
/// these two operations can take the place of another.
pub trait Store {
    /// Buffers one sample, or forwards it at once.
    fn add_measurement(&mut self, measurement: Measurement) -> Result<(), String>;

    /// Delivers everything that is buffered in one batch. With nothing
    /// buffered it succeeds without doing anything; the buffer is emptied
    /// only when the delivery succeeded.
    fn flush(&mut self) -> Result<(), String>;
}

/// A store together with the record of the calls made on it. Whoever holds
/// a store this way can reach it only through the two operations here, and
/// each of them makes exactly one call on the store and adds that call to
/// the end of the record, whatever the store answers.
pub struct Recorded<S: Store> {
    store: S,
    calls: Ghost<Seq<StoreCall>>,
}

impl<S: Store> Recorded<S> {
    /// The calls made on the store so far, oldest first.
    pub closed spec fn calls(&self) -> Seq<StoreCall> {
        self.calls@
    }

    /// The store as it now is.
    pub closed spec fn inner(&self) -> S {
        self.store
    }

    /// Takes a store on which no call has been recorded yet.
    pub fn new(store: S) -> (recorded: Recorded<S>)
        ensures
            recorded.calls() == Seq::<StoreCall>::empty(),
            recorded.inner() == store,
    {
        Recorded { store, calls: Ghost(Seq::empty()) }
    }

    /// Hands the measurement to the store and records the call.
    pub fn add_measurement(&mut self, measurement: Measurement) -> (outcome: Result<(), String>)
        ensures
            final(self).calls() == old(self).calls().push(StoreCall::Add(measurement)),
    {
        proof {
            self.calls@ = self.calls@.push(StoreCall::Add(measurement));
        }
        self.store.add_measurement(measurement)
    }

    /// Flushes the store and records the call.
    pub fn flush(&mut self) -> (outcome: Result<(), String>)
        ensures
            final(self).calls() == old(self).calls().push(StoreCall::Flush),
    {
        proof {
            self.calls@ = self.calls@.push(StoreCall::Flush);
        }
        self.store.flush()
    }

    /// The store itself, to look at.
    pub fn backend(&self) -> (store: &S)
        ensures
            *store == self.inner(),
    {
        &self.store
    }

    /// Gives the store back and drops the record.
    pub fn into_backend(self) -> (store: S)
        ensures
            store == self.inner(),
    {
        self.store
    }
}

} // verus!
