//! The values that travel through the pipeline.
use vstd::prelude::*;

verus! {

/// Nanoseconds in one millisecond.
pub const NANOS_PER_MILLI: u128 = 1_000_000;

/// One more than the largest millisecond count a write record can carry.
pub const MILLIS_MODULUS: u128 = 0x1_0000_0000_0000_0000;

/// A round-trip time. The unit is part of the type: the count is always in
/// nanoseconds, and milliseconds are only ever derived from it.
#[derive(Clone, Copy, Debug, PartialEq, Eq, Structural)]
pub struct Latency {
    pub nanos: u128,
}

impl Latency {
    /// Whole milliseconds in this latency, rounded down.
    pub open spec fn millis(self) -> nat {
        (self.nanos / NANOS_PER_MILLI) as nat
    }

    /// The millisecond count as a write record stores it: the whole
    /// milliseconds, reduced to the 64 bits of the stored field.
    pub open spec fn stored_millis(self) -> nat {
        self.millis() % (MILLIS_MODULUS as nat)
    }

    pub fn from_nanos(nanos: u128) -> (latency: Latency)
        ensures
            latency.nanos == nanos,
    {
        Latency { nanos }
    }

    pub fn from_millis(millis: u64) -> (latency: Latency)
        ensures
            latency.nanos == millis * NANOS_PER_MILLI,
            latency.millis() == millis,
    {
        let wide: u128 = millis as u128;
        assert(wide * 1_000_000 <= u128::MAX) by (nonlinear_arith)
            requires
                wide <= u64::MAX,
        ;
        assert((wide * 1_000_000) / 1_000_000 == wide) by (nonlinear_arith);
        Latency { nanos: wide * NANOS_PER_MILLI }
    }

    pub fn as_nanos(&self) -> (nanos: u128)
        ensures
            nanos == self.nanos,
    {
        self.nanos
    }

    pub fn as_millis(&self) -> (millis: u128)
        ensures
            millis == self.millis(),
    {
        self.nanos / NANOS_PER_MILLI
    }

    /// The value of the stored `duration` field for this latency.
    pub fn to_stored_millis(&self) -> (millis: u64)
        ensures
            millis == self.stored_millis(),
            self.millis() <= u64::MAX ==> millis == self.millis(),
    {
        let reduced: u128 = (self.nanos / NANOS_PER_MILLI) % MILLIS_MODULUS;
        reduced as u64
    }
}

/// What a measurement is, as plain mathematical values.
pub struct MeasurementView {
    pub host: Seq<char>,
    pub time: nat,
    pub duration: Latency,
}

/// One latency sample: which host answered, when the answer was received
/// (nanoseconds since the epoch) and how long the round trip took.
#[derive(Debug, PartialEq, Eq)]
pub struct Measurement {
    pub host: String,
    pub time: u128,
    pub duration: Latency,
}

impl View for Measurement {
    type V = MeasurementView;

    open spec fn view(&self) -> MeasurementView {
        MeasurementView { host: self.host@, time: self.time as nat, duration: self.duration }
    }
}

impl Measurement {
    pub fn new(host: String, time: u128, duration: Latency) -> (measurement: Measurement)
        ensures
            measurement@ == (MeasurementView { host: host@, time: time as nat, duration }),
            measurement.host == host,
    {
        Measurement { host, time, duration }
    }
}

/// The views of a sequence of measurements, in order.
pub open spec fn views(items: Seq<Measurement>) -> Seq<MeasurementView> {
    items.map_values(|m: Measurement| m@)
}

/// One event of a host's probe stream. Every variant but the last carries the
/// raw line it was read from; only `Success` gives rise to a measurement.
#[derive(Debug, PartialEq, Eq)]
pub enum ProbeEvent {
    /// The host answered after the given round-trip time.
    Success(Latency, String),
    /// No answer arrived in time.
    Timeout(String),
    /// A line that is not a probe result.
    Unrecognized(String),
    /// The probe process ended, with its exit code (if it had one) and what
    /// it wrote to its error output.
    ProcessExited(Option<i32>, String),
}

impl ProbeEvent {
    /// A second event equal to this one.
    pub fn duplicate(&self) -> (copy: ProbeEvent)
        ensures
            copy == *self,
    {
        match self {
            ProbeEvent::Success(duration, line) => ProbeEvent::Success(*duration, line.clone()),
            ProbeEvent::Timeout(line) => ProbeEvent::Timeout(line.clone()),
            ProbeEvent::Unrecognized(line) => ProbeEvent::Unrecognized(line.clone()),
            ProbeEvent::ProcessExited(code, stderr) => ProbeEvent::ProcessExited(
                *code,
                stderr.clone(),
            ),
        }
    }
}

/// A probe event together with the clock reading taken when it was received,
/// in nanoseconds since the epoch.
#[derive(Debug, PartialEq, Eq)]
pub struct TimedEvent {
    pub at: u128,
    pub event: ProbeEvent,
}

} // verus!
