use pingflow::channel::{Aggregator, RecvOutcome, SendOutcome, CHANNEL_CAPACITY};
use pingflow::config::InfluxDB;
use pingflow::measurement::{Latency, Measurement, ProbeEvent, TimedEvent};
use pingflow::pipeline::deliver;
use pingflow::store::influxdb::InfluxDBStore;
use pingflow::store::{Recorded, Store};
use pingflow::worker::collect;
use pingflow::writer::{BatchWriter, WriterAction, WriterEvent};

/// A store that records every call, refuses the writes whose index is
/// listed, and delivers its batch into `persisted`.
struct RecordingStore {
    inner: InfluxDBStore,
    calls: Vec<String>,
    writes: usize,
    fail_writes: Vec<usize>,
    fail_flush: bool,
    persisted: Vec<(String, u64, String)>,
}

impl RecordingStore {
    fn new() -> Self {
        RecordingStore {
            inner: InfluxDBStore::new(InfluxDB {
                host: "http://localhost:8086".to_string(),
                db: "pings".to_string(),
                token: None,
            }),
            calls: Vec::new(),
            writes: 0,
            fail_writes: Vec::new(),
            fail_flush: false,
            persisted: Vec::new(),
        }
    }

    fn flushes(&self) -> usize {
        self.calls.iter().filter(|c| c.as_str() == "flush").count()
    }
}

impl Store for RecordingStore {
    fn add_measurement(&mut self, measurement: Measurement) -> Result<(), String> {
        let index = self.writes;
        self.writes += 1;
        self.calls.push(format!("add {}@{}", measurement.host, measurement.time));
        if self.fail_writes.contains(&index) {
            return Err(format!("write {} refused", index));
        }
        self.inner.add_measurement_from(measurement, Some("collector".to_string()))
    }

    fn flush(&mut self) -> Result<(), String> {
        self.calls.push("flush".to_string());
        let delivery = match self.inner.pending() {
            None => return Ok(()),
            Some(batch) => {
                if self.fail_flush {
                    Err("store unreachable".to_string())
                } else {
                    for record in batch {
                        self.persisted.push((
                            record.target.clone(),
                            record.duration,
                            record.from.clone(),
                        ));
                    }
                    Ok(())
                }
            }
        };
        self.inner.complete_flush(delivery)
    }
}

fn successes(start: u128, latencies: &[u64]) -> Vec<TimedEvent> {
    latencies
        .iter()
        .enumerate()
        .map(|(i, ms)| TimedEvent {
            at: start + i as u128,
            event: ProbeEvent::Success(Latency::from_millis(*ms), format!("time={} ms", ms)),
        })
        .collect()
}

fn sample(host: &str, time: u128) -> Measurement {
    Measurement::new(host.to_string(), time, Latency::from_millis(1))
}

#[test]
fn default_capacity_is_33() {
    assert_eq!(CHANNEL_CAPACITY, 33);
    let channel = Aggregator::with_default_capacity(2);
    assert_eq!(channel.len(), 0);
    assert_eq!(channel.open_senders(), 2);
}

#[test]
fn channel_is_first_in_first_out() {
    let mut channel = Aggregator::new(4, 1);
    assert_eq!(channel.try_send(sample("a", 1)), SendOutcome::Accepted);
    assert_eq!(channel.try_send(sample("a", 2)), SendOutcome::Accepted);
    assert_eq!(channel.try_send(sample("a", 3)), SendOutcome::Accepted);
    assert_eq!(channel.recv(), RecvOutcome::Item(sample("a", 1)));
    assert_eq!(channel.recv(), RecvOutcome::Item(sample("a", 2)));
    assert_eq!(channel.recv(), RecvOutcome::Item(sample("a", 3)));
    assert_eq!(channel.recv(), RecvOutcome::Empty);
}

#[test]
fn full_channel_hands_the_measurement_back() {
    let mut channel = Aggregator::new(2, 1);
    assert_eq!(channel.try_send(sample("a", 1)), SendOutcome::Accepted);
    assert_eq!(channel.try_send(sample("a", 2)), SendOutcome::Accepted);
    assert_eq!(channel.try_send(sample("a", 3)), SendOutcome::Full(sample("a", 3)));
    assert_eq!(channel.len(), 2);
    assert_eq!(channel.recv(), RecvOutcome::Item(sample("a", 1)));
    assert_eq!(channel.try_send(sample("a", 3)), SendOutcome::Accepted);
    assert_eq!(channel.len(), 2);
}

#[test]
fn channel_closes_when_the_last_sender_is_released() {
    let mut channel = Aggregator::new(2, 2);
    assert_eq!(channel.try_send(sample("a", 1)), SendOutcome::Accepted);
    channel.release_sender();
    assert_eq!(channel.open_senders(), 1);
    channel.release_sender();
    assert_eq!(channel.open_senders(), 0);
    channel.release_sender();
    assert_eq!(channel.open_senders(), 0);
    assert_eq!(channel.recv(), RecvOutcome::Item(sample("a", 1)));
    assert_eq!(channel.recv(), RecvOutcome::Closed);
}

#[test]
fn writer_answers_each_event() {
    let mut writer = BatchWriter::new();
    assert!(!writer.is_closed());
    assert_eq!(
        writer.on_event(WriterEvent::Received(sample("a", 1))),
        WriterAction::Add(sample("a", 1))
    );
    assert_eq!(writer.on_event(WriterEvent::StoreSucceeded), WriterAction::Nothing);
    assert_eq!(
        writer.on_event(WriterEvent::StoreFailed("disk full".to_string())),
        WriterAction::Report("disk full".to_string())
    );
    assert!(!writer.is_closed());
    assert_eq!(
        writer.on_event(WriterEvent::Received(sample("a", 2))),
        WriterAction::Add(sample("a", 2))
    );
    assert_eq!(writer.on_event(WriterEvent::Closed), WriterAction::Flush);
    assert!(writer.is_closed());
    assert_eq!(writer.on_event(WriterEvent::Closed), WriterAction::Nothing);
    assert_eq!(writer.on_event(WriterEvent::Received(sample("a", 3))), WriterAction::Nothing);
}

#[test]
fn two_hosts_three_probes_each() {
    let first = collect("alpha".to_string(), 3, &successes(100, &[10, 12, 11]));
    let second = collect("beta".to_string(), 3, &successes(100, &[50, 49, 48]));
    let mut channel = Aggregator::with_default_capacity(2);
    let mut first = first.into_iter();
    let mut second = second.into_iter();
    loop {
        let a = first.next();
        let b = second.next();
        if a.is_none() && b.is_none() {
            break;
        }
        for m in a.into_iter().chain(b) {
            assert_eq!(channel.try_send(m), SendOutcome::Accepted);
        }
    }
    channel.release_sender();
    channel.release_sender();

    let mut writer = BatchWriter::new();
    let mut store = Recorded::new(RecordingStore::new());
    let report = writer.pump(&mut channel, &mut store);
    assert_eq!(report.attempted, 6);
    assert!(report.write_errors.is_empty());
    assert!(report.flushed);
    assert_eq!(report.flush_error, None);
    assert_eq!(store.backend().writes, 6);
    assert_eq!(store.backend().flushes(), 1);
    assert_eq!(store.backend().calls.last().map(|c| c.as_str()), Some("flush"));
    assert_eq!(store.backend().persisted.len(), 6);
    let of = |host: &str| -> Vec<u64> {
        store.backend().persisted.iter().filter(|r| r.0 == host).map(|r| r.1).collect()
    };
    assert_eq!(of("alpha"), vec![10, 12, 11]);
    assert_eq!(of("beta"), vec![50, 49, 48]);
    assert!(store.backend().persisted.iter().all(|r| r.2 == "collector"));
    assert_eq!(store.backend().inner.buffered(), 0);
}

#[test]
fn probe_exits_after_two_responses() {
    let mut events = successes(1, &[20, 21]);
    events.push(TimedEvent {
        at: 3,
        event: ProbeEvent::ProcessExited(Some(2), "host unreachable".to_string()),
    });
    let out = collect("gamma".to_string(), 5, &events);
    assert_eq!(out.len(), 2);

    let mut channel = Aggregator::with_default_capacity(1);
    for m in out {
        assert_eq!(channel.try_send(m), SendOutcome::Accepted);
    }
    channel.release_sender();

    let mut writer = BatchWriter::new();
    let mut store = Recorded::new(RecordingStore::new());
    let report = writer.pump(&mut channel, &mut store);
    assert_eq!(report.attempted, 2);
    assert!(report.flushed);
    assert!(writer.is_closed());
    assert_eq!(store.backend().flushes(), 1);
    assert_eq!(store.backend().persisted.len(), 2);
    assert_eq!(channel.recv(), RecvOutcome::Closed);
}

#[test]
fn capacity_one_delivers_every_measurement() {
    let mut channel = Aggregator::new(1, 3);
    let mut writer = BatchWriter::new();
    let mut store = Recorded::new(RecordingStore::new());
    let mut waiting = vec![sample("a", 1), sample("b", 1), sample("c", 1)];
    let mut rounds = 0;
    while !waiting.is_empty() {
        rounds += 1;
        assert!(rounds <= 3);
        let mut turned_away = Vec::new();
        for m in waiting {
            match channel.try_send(m) {
                SendOutcome::Accepted => channel.release_sender(),
                SendOutcome::Full(back) => turned_away.push(back),
            }
            assert!(channel.len() <= 1);
        }
        waiting = turned_away;
        let report = writer.pump(&mut channel, &mut store);
        assert_eq!(report.attempted, 1);
        assert_eq!(report.flushed, waiting.is_empty());
    }
    assert_eq!(store.backend().flushes(), 1);
    let mut hosts: Vec<String> = store.backend().persisted.iter().map(|r| r.0.clone()).collect();
    hosts.sort();
    assert_eq!(hosts, vec!["a".to_string(), "b".to_string(), "c".to_string()]);
}

#[test]
fn flush_comes_once_and_after_the_last_write() {
    let mut channel = Aggregator::new(4, 1);
    let mut writer = BatchWriter::new();
    let mut store = Recorded::new(RecordingStore::new());
    channel.try_send(sample("a", 1));
    channel.try_send(sample("a", 2));
    let report = writer.pump(&mut channel, &mut store);
    assert_eq!(report.attempted, 2);
    assert!(!report.flushed);
    assert_eq!(store.backend().flushes(), 0);
    channel.try_send(sample("a", 3));
    channel.release_sender();
    let report = writer.pump(&mut channel, &mut store);
    assert_eq!(report.attempted, 1);
    assert!(report.flushed);
    assert_eq!(store.backend().calls, vec!["add a@1", "add a@2", "add a@3", "flush"]);
    let report = writer.pump(&mut channel, &mut store);
    assert_eq!(report.attempted, 0);
    assert!(!report.flushed);
    assert_eq!(store.backend().flushes(), 1);
}

#[test]
fn flush_comes_even_when_nothing_was_received() {
    let mut channel = Aggregator::new(4, 0);
    let mut writer = BatchWriter::new();
    let mut store = Recorded::new(RecordingStore::new());
    let report = writer.pump(&mut channel, &mut store);
    assert_eq!(report.attempted, 0);
    assert!(report.flushed);
    assert_eq!(report.flush_error, None);
    assert_eq!(store.backend().calls, vec!["flush"]);
}

#[test]
fn failed_write_does_not_stop_the_writer() {
    let mut channel = Aggregator::new(8, 1);
    for t in 1..=5 {
        assert_eq!(channel.try_send(sample("a", t)), SendOutcome::Accepted);
    }
    channel.release_sender();
    let mut writer = BatchWriter::new();
    let mut backend = RecordingStore::new();
    backend.fail_writes = vec![1, 3];
    let mut store = Recorded::new(backend);
    let report = writer.pump(&mut channel, &mut store);
    assert_eq!(report.attempted, 5);
    assert_eq!(report.write_errors, vec!["write 1 refused", "write 3 refused"]);
    assert!(report.flushed);
    assert_eq!(
        store.backend().calls,
        vec!["add a@1", "add a@2", "add a@3", "add a@4", "add a@5", "flush"]
    );
    assert_eq!(store.backend().persisted.len(), 3);
}

#[test]
fn failed_flush_is_reported_and_not_retried() {
    let mut channel = Aggregator::new(8, 1);
    channel.try_send(sample("a", 1));
    channel.release_sender();
    let mut writer = BatchWriter::new();
    let mut backend = RecordingStore::new();
    backend.fail_flush = true;
    let mut store = Recorded::new(backend);
    let report = writer.pump(&mut channel, &mut store);
    assert!(report.flushed);
    assert_eq!(
        report.flush_error,
        Some("Failed to write data to InfluxDB: store unreachable".to_string())
    );
    assert_eq!(store.backend().inner.buffered(), 1);
    let report = writer.pump(&mut channel, &mut store);
    assert!(!report.flushed);
    assert_eq!(store.backend().flushes(), 1);
}

#[test]
fn recorded_store_passes_calls_through() {
    let mut backend = RecordingStore::new();
    backend.fail_writes = vec![0];
    let mut store = Recorded::new(backend);
    assert_eq!(store.add_measurement(sample("a", 1)), Err("write 0 refused".to_string()));
    assert_eq!(store.add_measurement(sample("a", 2)), Ok(()));
    assert_eq!(store.flush(), Ok(()));
    let backend = store.into_backend();
    assert_eq!(backend.calls, vec!["add a@1", "add a@2", "flush"]);
    assert_eq!(backend.persisted, vec![("a".to_string(), 1, "collector".to_string())]);
}

#[test]
fn deliver_hands_over_everything_whatever_the_capacity() {
    for capacity in [1usize, 2, 3, 33] {
        let items: Vec<Measurement> = (1..=7).map(|t| sample("a", t)).collect();
        let mut store = Recorded::new(RecordingStore::new());
        let report = deliver(items, capacity, &mut store);
        assert_eq!(report.attempted, 7);
        assert!(report.flushed);
        assert!(report.write_errors.is_empty());
        assert_eq!(report.flush_error, None);
        assert_eq!(
            store.backend().calls,
            vec!["add a@1", "add a@2", "add a@3", "add a@4", "add a@5", "add a@6", "add a@7", "flush"]
        );
        assert_eq!(store.backend().persisted.len(), 7);
    }
}

#[test]
fn deliver_with_nothing_to_send_still_flushes() {
    let mut store = Recorded::new(RecordingStore::new());
    let report = deliver(Vec::new(), 1, &mut store);
    assert_eq!(report.attempted, 0);
    assert!(report.flushed);
    assert_eq!(store.backend().calls, vec!["flush"]);
}

#[test]
fn deliver_goes_on_after_failed_writes() {
    let mut backend = RecordingStore::new();
    backend.fail_writes = vec![0, 2];
    let mut store = Recorded::new(backend);
    let items: Vec<Measurement> = (1..=4).map(|t| sample("b", t)).collect();
    let report = deliver(items, 1, &mut store);
    assert_eq!(report.attempted, 4);
    assert_eq!(report.write_errors, vec!["write 0 refused", "write 2 refused"]);
    assert_eq!(store.backend().calls, vec!["add b@1", "add b@2", "add b@3", "add b@4", "flush"]);
    assert_eq!(store.backend().persisted.len(), 2);
}

#[test]
fn collected_measurements_reach_the_store_tagged_by_host() {
    let mut all = collect("alpha".to_string(), 3, &successes(100, &[10, 12, 11]));
    all.extend(collect("beta".to_string(), 3, &successes(100, &[50, 49, 48])));
    let mut store = Recorded::new(RecordingStore::new());
    let report = deliver(all, 2, &mut store);
    assert_eq!(report.attempted, 6);
    assert_eq!(store.backend().flushes(), 1);
    let persisted: Vec<(String, u64)> =
        store.backend().persisted.iter().map(|r| (r.0.clone(), r.1)).collect();
    assert_eq!(
        persisted,
        vec![
            ("alpha".to_string(), 10),
            ("alpha".to_string(), 12),
            ("alpha".to_string(), 11),
            ("beta".to_string(), 50),
            ("beta".to_string(), 49),
            ("beta".to_string(), 48),
        ]
    );
}
