//! The single consumer of the hand-off: it hands every measurement to the
//! store and flushes the store once, when the stream has ended.
use vstd::prelude::*;
use crate::channel::{Aggregator, RecvOutcome};
use crate::measurement::Measurement;
use crate::store::{adds, Recorded, Store, StoreCall};

verus! {

/// What the writer is told.
#[derive(Debug, PartialEq, Eq)]
pub enum WriterEvent {
    /// The hand-off delivered a measurement.
    Received(Measurement),
    /// The store took the last measurement it was given.
    StoreSucceeded,
    /// The store refused the last measurement it was given, in these words.
    StoreFailed(String),
    /// The hand-off has ended: every sender is gone and nothing is buffered.
    Closed,
}

/// What the writer asks for in return.
#[derive(Debug, PartialEq, Eq)]
pub enum WriterAction {
    /// Hand this measurement to the store.
    Add(Measurement),
    /// Flush the store.
    Flush,
    /// Report that a write failed (an error). The writer goes on.
    Report(String),
    /// Nothing to do.
    Nothing,
}

/// The writer's answer to `event`, given whether the stream had ended before.
pub open spec fn reaction(closed: bool, event: WriterEvent) -> WriterAction {
    match event {
        WriterEvent::Received(m) => if closed {
            WriterAction::Nothing
        } else {
            WriterAction::Add(m)
        },
        WriterEvent::Closed => if closed {
            WriterAction::Nothing
        } else {
            WriterAction::Flush
        },
        WriterEvent::StoreFailed(message) => WriterAction::Report(message),
        WriterEvent::StoreSucceeded => WriterAction::Nothing,
    }
}

/// Whether the end of the stream is among the first `upto` events of `trace`.
pub open spec fn closed_by(trace: Seq<WriterEvent>, upto: int) -> bool {
    exists|k: int| 0 <= k < upto && k < trace.len() && (#[trigger] trace[k]) is Closed
}

/// The writer's answer to the event at `at`, when it started fresh and was
/// told the events of `trace` in order.
pub open spec fn action_at(trace: Seq<WriterEvent>, at: int) -> WriterAction {
    reaction(closed_by(trace, at), trace[at])
}

/// The calls that end a round of the writer: the flush if the hand-off has
/// ended, and nothing otherwise.
pub open spec fn closing_calls(ended: bool) -> Seq<StoreCall> {
    if ended {
        seq![StoreCall::Flush]
    } else {
        Seq::empty()
    }
}

/// The state of the writer: whether it has seen the end of the stream, and
/// so has asked for the flush.
pub struct BatchWriter {
    closed: bool,
}

/// What one round of `pump` did.
#[derive(Debug, PartialEq, Eq)]
pub struct PumpReport {
    /// The number of measurements handed to the store.
    pub attempted: usize,
    /// What the store said of each measurement it refused, in order.
    pub write_errors: Vec<String>,
    /// Whether this round flushed the store.
    pub flushed: bool,
    /// What the store said if that flush failed.
    pub flush_error: Option<String>,
}

impl BatchWriter {
    /// Whether the writer has seen the end of the stream.
    pub closed spec fn closed(&self) -> bool {
        self.closed
    }

    /// A writer that has seen nothing yet.
    pub fn new() -> (writer: BatchWriter)
        ensures
            !writer.closed(),
    {
        BatchWriter { closed: false }
    }

    pub fn is_closed(&self) -> (closed: bool)
        ensures
            closed == self.closed(),
    {
        self.closed
    }

    /// Takes one event and answers with what is to be done. Only the end of
    /// the stream changes the writer; a failed write does not.
    pub fn on_event(&mut self, event: WriterEvent) -> (action: WriterAction)
        ensures
            action == reaction(old(self).closed(), event),
            final(self).closed() == (old(self).closed() || event is Closed),
    {
        match event {
            WriterEvent::Received(measurement) => {
                if self.closed {
                    WriterAction::Nothing
                } else {
                    WriterAction::Add(measurement)
                }
            },
            WriterEvent::Closed => {
                if self.closed {
                    WriterAction::Nothing
                } else {
                    self.closed = true;
                    WriterAction::Flush
                }
            },
            WriterEvent::StoreFailed(message) => WriterAction::Report(message),
            WriterEvent::StoreSucceeded => WriterAction::Nothing,
        }
    }

    /// Takes out of the hand-off everything that is buffered, oldest first,
    /// and hands each measurement to the store, whatever the store said of
    /// the one before. If the hand-off has then ended, flushes the store,
    /// once. A writer that has flushed before leaves hand-off and store
    /// alone.
    pub fn pump<S: Store>(
        &mut self,
        channel: &mut Aggregator,
        store: &mut Recorded<S>,
    ) -> (report: PumpReport)
        requires
            old(channel).wf(),
        ensures
            final(channel).wf(),
            final(channel).capacity() == old(channel).capacity(),
            final(channel).senders() == old(channel).senders(),
            report.write_errors@.len() <= report.attempted,
            report.flush_error is Some ==> report.flushed,
            old(self).closed() ==> {
                &&& final(self).closed()
                &&& report.attempted == 0
                &&& !report.flushed
                &&& final(channel).buffered() == old(channel).buffered()
                &&& final(store).calls() == old(store).calls()
            },
            !old(self).closed() ==> {
                &&& final(channel).buffered() == Seq::<Measurement>::empty()
                &&& report.attempted == old(channel).buffered().len()
                &&& report.flushed == (old(channel).senders() == 0)
                &&& final(self).closed() == report.flushed
                &&& final(store).calls() == old(store).calls() + adds(old(channel).buffered())
                    + closing_calls(old(channel).senders() == 0)
            },
    {
        let mut report = PumpReport {
            attempted: 0,
            write_errors: Vec::new(),
            flushed: false,
            flush_error: None,
        };
        if self.closed {
            return report;
        }
        let waiting: usize = channel.len();
        assert(old(channel).buffered().take(0) =~= Seq::<Measurement>::empty());
        assert(old(channel).buffered().skip(0) =~= old(channel).buffered());
        assert(old(store).calls() + adds(Seq::<Measurement>::empty()) =~= old(store).calls());
        loop
            invariant_except_break
                store.calls() == old(store).calls() + adds(
                    old(channel).buffered().take(report.attempted as int),
                ),
                channel.buffered() == old(channel).buffered().skip(report.attempted as int),
                !self.closed(),
                !report.flushed,
                report.flush_error is None,
                report.attempted + channel.buffered().len() == waiting,
            invariant
                channel.wf(),
                channel.capacity() == old(channel).capacity(),
                channel.senders() == old(channel).senders(),
                waiting == old(channel).buffered().len(),
                report.write_errors@.len() <= report.attempted,
            ensures
                channel.wf(),
                channel.capacity() == old(channel).capacity(),
                channel.senders() == old(channel).senders(),
                channel.buffered() == Seq::<Measurement>::empty(),
                report.attempted == old(channel).buffered().len(),
                report.write_errors@.len() <= report.attempted,
                report.flush_error is Some ==> report.flushed,
                report.flushed == (channel.senders() == 0),
                self.closed() == report.flushed,
                store.calls() == old(store).calls() + adds(old(channel).buffered())
                    + closing_calls(old(channel).senders() == 0),
            decreases channel.buffered().len(),
        {
            let ghost all = old(channel).buffered();
            let ghost done = report.attempted as int;
            match channel.recv() {
                RecvOutcome::Item(measurement) => {
                    assert(measurement == all[done]);
                    assert(all.skip(done).drop_first() =~= all.skip(done + 1));
                    assert(adds(all.take(done + 1)) =~= adds(all.take(done)).push(
                        StoreCall::Add(measurement),
                    )) by {
                        assert(all.take(done + 1) =~= all.take(done).push(measurement));
                    }
                    assert((old(store).calls() + adds(all.take(done))).push(
                        StoreCall::Add(measurement),
                    ) =~= old(store).calls() + adds(all.take(done + 1)));
                    match self.on_event(WriterEvent::Received(measurement)) {
                        WriterAction::Add(item) => {
                            report.attempted = report.attempted + 1;
                            let answer = match store.add_measurement(item) {
                                Ok(_) => WriterEvent::StoreSucceeded,
                                Err(message) => WriterEvent::StoreFailed(message),
                            };
                            match self.on_event(answer) {
                                WriterAction::Report(message) => {
                                    report.write_errors.push(message);
                                },
                                _ => {},
                            }
                        },
                        _ => {},
                    }
                },
                RecvOutcome::Empty => {
                    assert(channel.buffered() =~= Seq::<Measurement>::empty());
                    assert(all.take(done) =~= all);
                    assert(store.calls() + Seq::<StoreCall>::empty() =~= store.calls());
                    break ;
                },
                RecvOutcome::Closed => {
                    assert(channel.buffered() =~= Seq::<Measurement>::empty());
                    assert(all.take(done) =~= all);
                    assert(store.calls().push(StoreCall::Flush) =~= store.calls()
                        + seq![StoreCall::Flush]);
                    match self.on_event(WriterEvent::Closed) {
                        WriterAction::Flush => {
                            report.flushed = true;
                            match store.flush() {
                                Ok(_) => {},
                                Err(message) => {
                                    report.flush_error = Some(message);
                                },
                            }
                        },
                        _ => {},
                    }
                    break ;
                },
            }
        }
        report
    }
}

/// Telling the writer one more event changes whether it has seen the end of
/// the stream exactly as `on_event` says: it has if it had before, or if
/// the event is the end.
pub proof fn lemma_closed_by_step(trace: Seq<WriterEvent>, at: int)
    requires
        0 <= at < trace.len(),
    ensures
        closed_by(trace, at + 1) == (closed_by(trace, at) || trace[at] is Closed),
        !closed_by(trace, 0),
{
    if closed_by(trace, at + 1) {
        let k = choose|k: int| 0 <= k < at + 1 && k < trace.len() && (#[trigger] trace[k]) is Closed;
        if k < at {
            assert(closed_by(trace, at));
        }
    }
    if closed_by(trace, at) {
        let k = choose|k: int| 0 <= k < at && k < trace.len() && (#[trigger] trace[k]) is Closed;
        assert(0 <= k < at + 1 && trace[k] is Closed);
    }
    if trace[at] is Closed {
        assert(0 <= at < at + 1 && trace[at] is Closed);
    }
}

/// The store is flushed exactly when the stream ends: the first end of the
/// stream in a trace is answered with the flush.
pub proof fn lemma_flush_at_first_close(trace: Seq<WriterEvent>, at: int)
    requires
        0 <= at < trace.len(),
        trace[at] is Closed,
        forall|k: int| 0 <= k < at ==> !((#[trigger] trace[k]) is Closed),
    ensures
        action_at(trace, at) is Flush,
{
}

/// The flush is asked for at most once, and after it no measurement is
/// handed to the store: whatever follows a flush in a trace is answered
/// with neither a flush nor a write.
pub proof fn lemma_flush_is_last(trace: Seq<WriterEvent>, flush: int, later: int)
    requires
        0 <= flush < later < trace.len(),
        action_at(trace, flush) is Flush,
    ensures
        !(action_at(trace, later) is Flush),
        !(action_at(trace, later) is Add),
{
    assert(trace[flush] is Closed);
    assert(closed_by(trace, later));
}

/// A measurement that arrives before the stream has ended is handed to the
/// store, whatever the store said of the measurements before it: failed
/// writes earlier in the trace change nothing.
pub proof fn lemma_write_attempted(trace: Seq<WriterEvent>, at: int, measurement: Measurement)
    requires
        0 <= at < trace.len(),
        trace[at] == WriterEvent::Received(measurement),
        forall|k: int| 0 <= k < at ==> !((#[trigger] trace[k]) is Closed),
    ensures
        action_at(trace, at) == WriterAction::Add(measurement),
{
}

} // verus!
