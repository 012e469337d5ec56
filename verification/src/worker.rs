//! The per-host probe worker.
use vstd::prelude::*;
use crate::measurement::{Measurement, MeasurementView, ProbeEvent, TimedEvent, views};

verus! {

/// Milliseconds between two probes of one host. A policy constant: it does
/// not depend on how many probes are asked for.
pub const PROBE_INTERVAL_MILLIS: u64 = 300;

/// What the caller has to do after handing an event to a worker.
#[derive(Debug, PartialEq, Eq)]
pub enum WorkerAction {
    /// Send this measurement to the writer; the send may have to wait.
    Emit(Measurement),
    /// Report a probe that timed out. Nothing is sent.
    ReportTimeout,
    /// Report a line that was not understood. Nothing is sent.
    ReportUnrecognized(String),
    /// Report that the probe process ended, with its exit code and error
    /// output, and stop reading the stream.
    Stop(Option<i32>, String),
    /// The worker had finished before the event came: drop the event.
    Idle,
}

/// How loudly something is reported.
#[derive(Clone, Copy, Debug, PartialEq, Eq, Structural)]
pub enum Severity {
    Debug,
    Warning,
    Error,
}

/// The level at which an action is reported: a measurement on its way is
/// worth a debug line, a timeout a warning, a line that was not understood
/// and the end of the probe process an error. There is nothing to report of
/// an event that was dropped.
pub open spec fn level_of(action: WorkerAction) -> Option<Severity> {
    match action {
        WorkerAction::Emit(_) => Some(Severity::Debug),
        WorkerAction::ReportTimeout => Some(Severity::Warning),
        WorkerAction::ReportUnrecognized(_) => Some(Severity::Error),
        WorkerAction::Stop(_, _) => Some(Severity::Error),
        WorkerAction::Idle => None,
    }
}

impl WorkerAction {
    pub fn severity(&self) -> (level: Option<Severity>)
        ensures
            level == level_of(*self),
    {
        match self {
            WorkerAction::Emit(_) => Some(Severity::Debug),
            WorkerAction::ReportTimeout => Some(Severity::Warning),
            WorkerAction::ReportUnrecognized(_) => Some(Severity::Error),
            WorkerAction::Stop(_, _) => Some(Severity::Error),
            WorkerAction::Idle => None,
        }
    }
}

/// The probe of one host could not be started at all. The worker for that
/// host never runs; what becomes of the run is the driver's decision.
#[derive(Debug, PartialEq, Eq)]
pub struct ProbeStartError {
    /// The host whose probe did not start.
    pub host: String,
    /// What the probe subsystem said.
    pub reason: String,
}

impl ProbeStartError {
    /// The text of the report: a fixed opening, the host, `": "`, the reason.
    pub open spec fn message_text(&self) -> Seq<char> {
        "error pinging "@ + self.host@ + ": "@ + self.reason@
    }

    pub fn message(&self) -> (text: String)
        ensures
            text@ == self.message_text(),
    {
        String::from_str("error pinging ").concat(self.host.as_str()).concat(": ").concat(
            self.reason.as_str(),
        )
    }
}

/// What a driver does about a host whose probe cannot be started.
#[derive(Clone, Copy, Debug, PartialEq, Eq, Structural)]
pub enum FailurePolicy {
    /// Leave that host out and go on with the others.
    SkipHost,
    /// Give up the whole run.
    AbortRun,
}

impl Default for FailurePolicy {
    /// Unless told otherwise, one host's failure does not end the run.
    fn default() -> (policy: FailurePolicy)
        ensures
            policy == FailurePolicy::SkipHost,
    {
        FailurePolicy::SkipHost
    }
}

impl FailurePolicy {
    /// Whether the run goes on with the other hosts after a probe failed to
    /// start.
    pub fn run_continues(&self) -> (goes_on: bool)
        ensures
            goes_on == (*self == FailurePolicy::SkipHost),
    {
        match self {
            FailurePolicy::SkipHost => true,
            FailurePolicy::AbortRun => false,
        }
    }
}

/// The answer that a worker for `host` which has not finished owes to
/// `event`, received at `now`.
pub open spec fn answers(
    host: Seq<char>,
    event: ProbeEvent,
    now: u128,
    action: WorkerAction,
) -> bool {
    match event {
        ProbeEvent::Success(duration, _) => {
            &&& action matches WorkerAction::Emit(m)
            &&& m@ == (MeasurementView { host, time: now as nat, duration })
        },
        ProbeEvent::Timeout(_) => action is ReportTimeout,
        ProbeEvent::Unrecognized(line) => action == WorkerAction::ReportUnrecognized(line),
        ProbeEvent::ProcessExited(code, stderr) => action == WorkerAction::Stop(code, stderr),
    }
}

/// The measurements that a worker for `host` with `budget` events still to
/// observe emits on `events`: one per success among the first `budget`
/// events, and none from a process exit on.
pub open spec fn emitted(host: Seq<char>, budget: nat, events: Seq<TimedEvent>) -> Seq<
    MeasurementView,
>
    decreases events.len(),
{
    if budget == 0 || events.len() == 0 {
        Seq::empty()
    } else {
        let rest = emitted(host, (budget - 1) as nat, events.drop_first());
        match events[0].event {
            ProbeEvent::Success(duration, _) => seq![
                MeasurementView { host, time: events[0].at as nat, duration },
            ] + rest,
            ProbeEvent::ProcessExited(_, _) => Seq::empty(),
            _ => rest,
        }
    }
}

/// The state of one host's worker: the host, how many events it may still
/// observe, and whether its probe process has ended.
pub struct ProbeWorker {
    host: String,
    remaining: u8,
    exited: bool,
}

impl ProbeWorker {
    pub closed spec fn host(&self) -> Seq<char> {
        self.host@
    }

    /// The number of events the worker may still observe.
    pub closed spec fn budget(&self) -> nat {
        self.remaining as nat
    }

    /// Whether the probe process has been seen to end.
    pub closed spec fn exited(&self) -> bool {
        self.exited
    }

    /// A finished worker reads no further event.
    pub open spec fn finished(&self) -> bool {
        self.budget() == 0 || self.exited()
    }

    /// A worker for `host` that observes at most `count` events.
    pub fn new(host: String, count: u8) -> (worker: ProbeWorker)
        requires
            host@.len() > 0,
            count > 0,
        ensures
            worker.host() == host@,
            worker.budget() == count,
            !worker.exited(),
    {
        ProbeWorker { host, remaining: count, exited: false }
    }

    pub fn is_finished(&self) -> (done: bool)
        ensures
            done == self.finished(),
    {
        self.remaining == 0 || self.exited
    }

    pub fn remaining(&self) -> (left: u8)
        ensures
            left == self.budget(),
    {
        self.remaining
    }

    /// Takes the next event of the stream, received at clock reading `now`,
    /// and says what to do about it. Every event uses up one unit of the
    /// budget; a process exit finishes the worker at once.
    pub fn on_event(&mut self, event: ProbeEvent, now: u128) -> (action: WorkerAction)
        ensures
            final(self).host() == old(self).host(),
            old(self).finished() ==> {
                &&& action is Idle
                &&& final(self).budget() == old(self).budget()
                &&& final(self).exited() == old(self).exited()
            },
            !old(self).finished() ==> {
                &&& answers(old(self).host(), event, now, action)
                &&& final(self).budget() == old(self).budget() - 1
                &&& final(self).exited() == (event is ProcessExited)
            },
    {
        if self.remaining == 0 || self.exited {
            return WorkerAction::Idle;
        }
        self.remaining = self.remaining - 1;
        match event {
            ProbeEvent::Success(duration, _) => {
                WorkerAction::Emit(Measurement::new(self.host.clone(), now, duration))
            },
            ProbeEvent::Timeout(_) => WorkerAction::ReportTimeout,
            ProbeEvent::Unrecognized(line) => WorkerAction::ReportUnrecognized(line),
            ProbeEvent::ProcessExited(code, stderr) => {
                self.exited = true;
                WorkerAction::Stop(code, stderr)
            },
        }
    }
}

/// Whether the clock readings of `events` never step back.
pub open spec fn clock_steady(events: Seq<TimedEvent>) -> bool {
    forall|i: int, j: int| 0 <= i <= j < events.len() ==> events[i].at <= events[j].at
}

/// Whether the timestamps of `items` never step back.
pub open spec fn times_ordered(items: Seq<MeasurementView>) -> bool {
    forall|i: int, j: int| 0 <= i <= j < items.len() ==> items[i].time <= items[j].time
}

/// Runs a worker for `host` over a recorded stream: the measurements it
/// emits, in order, when it may observe `count` events and `events` is what
/// the stream delivers before it ends.
pub fn collect(host: String, count: u8, events: &Vec<TimedEvent>) -> (out: Vec<Measurement>)
    requires
        host@.len() > 0,
        count > 0,
    ensures
        views(out@) == emitted(host@, count as nat, events@),
{
    let ghost name = host@;
    let mut worker = ProbeWorker::new(host, count);
    let mut out: Vec<Measurement> = Vec::new();
    let mut i: usize = 0;
    assert(events@.skip(0) =~= events@);
    assert(views(out@) =~= Seq::<MeasurementView>::empty());
    while i < events.len() && !worker.is_finished()
        invariant
            i <= events.len(),
            worker.host() == name,
            emitted(name, count as nat, events@) == views(out@) + (if worker.exited() {
                Seq::<MeasurementView>::empty()
            } else {
                emitted(name, worker.budget(), events@.skip(i as int))
            }),
        decreases events.len() - i,
    {
        let ghost before = views(out@);
        let ghost tail = events@.skip(i as int);
        assert(tail[0] == events@[i as int]);
        assert(tail.drop_first() =~= events@.skip(i + 1));
        let action = worker.on_event(events[i].event.duplicate(), events[i].at);
        match action {
            WorkerAction::Emit(m) => {
                out.push(m);
                assert(views(out@) =~= before.push(m@));
                assert(before + (seq![m@] + emitted(
                    name,
                    worker.budget(),
                    events@.skip(i + 1),
                )) =~= before.push(m@) + emitted(name, worker.budget(), events@.skip(i + 1)));
            },
            _ => {},
        }
        i = i + 1;
    }
    assert(views(out@) + Seq::<MeasurementView>::empty() =~= views(out@));
    out
}

/// A worker never emits more measurements than the number of events it was
/// allowed to observe, nor more than the stream delivered.
pub proof fn lemma_emitted_within_budget(host: Seq<char>, budget: nat, events: Seq<TimedEvent>)
    ensures
        emitted(host, budget, events).len() <= budget,
        emitted(host, budget, events).len() <= events.len(),
    decreases events.len(),
{
    if budget != 0 && events.len() != 0 {
        lemma_emitted_within_budget(host, (budget - 1) as nat, events.drop_first());
    }
}

/// Every measurement a worker emits names the worker's own host.
pub proof fn lemma_emitted_names_host(host: Seq<char>, budget: nat, events: Seq<TimedEvent>)
    ensures
        forall|k: int|
            0 <= k < emitted(host, budget, events).len() ==> (#[trigger] emitted(
                host,
                budget,
                events,
            )[k]).host == host,
    decreases events.len(),
{
    if budget != 0 && events.len() != 0 {
        let all = emitted(host, budget, events);
        let rest = emitted(host, (budget - 1) as nat, events.drop_first());
        lemma_emitted_names_host(host, (budget - 1) as nat, events.drop_first());
        assert forall|k: int| 0 <= k < all.len() implies (#[trigger] all[k]).host == host by {
            if all.len() == rest.len() + 1 && k > 0 {
                assert(all[k] == rest[k - 1]);
            }
        }
    }
}

/// No measurement is stamped earlier than `floor` when no event was received
/// earlier than `floor`.
proof fn lemma_emitted_not_before(host: Seq<char>, budget: nat, events: Seq<TimedEvent>, floor: nat)
    requires
        forall|k: int| 0 <= k < events.len() ==> floor <= (#[trigger] events[k]).at,
    ensures
        forall|k: int|
            0 <= k < emitted(host, budget, events).len() ==> floor <= (#[trigger] emitted(
                host,
                budget,
                events,
            )[k]).time,
    decreases events.len(),
{
    if budget != 0 && events.len() != 0 {
        let rest = events.drop_first();
        assert forall|k: int| 0 <= k < rest.len() implies floor <= (#[trigger] rest[k]).at by {
            assert(rest[k] == events[k + 1]);
        }
        lemma_emitted_not_before(host, (budget - 1) as nat, rest, floor);
        let all = emitted(host, budget, events);
        let later = emitted(host, (budget - 1) as nat, rest);
        assert forall|k: int| 0 <= k < all.len() implies floor <= (#[trigger] all[k]).time by {
            if all.len() == later.len() + 1 && k > 0 {
                assert(all[k] == later[k - 1]);
            }
        }
    }
}

/// The timestamps of one host's measurements never step back, as long as the
/// clock that stamped the events did not.
pub proof fn lemma_emitted_times_ordered(host: Seq<char>, budget: nat, events: Seq<TimedEvent>)
    requires
        clock_steady(events),
    ensures
        times_ordered(emitted(host, budget, events)),
    decreases events.len(),
{
    if budget != 0 && events.len() != 0 {
        let rest = events.drop_first();
        assert forall|i: int, j: int| 0 <= i <= j < rest.len() implies rest[i].at
            <= rest[j].at by {
            assert(rest[i] == events[i + 1]);
            assert(rest[j] == events[j + 1]);
        }
        assert forall|k: int| 0 <= k < rest.len() implies events[0].at as nat
            <= (#[trigger] rest[k]).at by {
            assert(rest[k] == events[k + 1]);
        }
        lemma_emitted_times_ordered(host, (budget - 1) as nat, rest);
        lemma_emitted_not_before(host, (budget - 1) as nat, rest, events[0].at as nat);
        let all = emitted(host, budget, events);
        let later = emitted(host, (budget - 1) as nat, rest);
        assert forall|i: int, j: int| 0 <= i <= j < all.len() implies all[i].time
            <= all[j].time by {
            if all.len() == later.len() + 1 {
                if i > 0 {
                    assert(all[i] == later[i - 1]);
                }
                if j > 0 {
                    assert(all[j] == later[j - 1]);
                }
            }
        }
    }
}

} // verus!
