//! A latency telemetry pipeline: probe workers turn probe events into
//! measurements, a bounded hand-off carries them to a single batching
//! writer, and the writer buffers one write record per measurement until the
//! final flush.
pub mod channel;
pub mod config;
pub mod measurement;
pub mod pipeline;
pub mod store;
pub mod worker;
pub mod writer;

pub use channel::{Aggregator, RecvOutcome, SendOutcome};
pub use config::{default_ping_count, Config, ConfigError, InfluxDB};
pub use measurement::{Latency, Measurement, MeasurementView, ProbeEvent, TimedEvent};
pub use store::influxdb::{InfluxDBStore, WriteRecord};
pub use store::{Recorded, Store, StoreCall};
pub use worker::{FailurePolicy, ProbeStartError, ProbeWorker, Severity, WorkerAction};
pub use writer::{BatchWriter, PumpReport, WriterAction, WriterEvent};
