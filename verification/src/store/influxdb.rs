//! The buffering half of a time-series backend: it turns measurements into
//! write records and keeps them until a batch has been delivered.
use vstd::prelude::*;
use crate::config::InfluxDB;
use crate::measurement::{Measurement, MeasurementView};

verus! {

/// What a write record is, as plain mathematical values.
pub struct WriteRecordView {
    pub series: Seq<char>,
    pub timestamp: nat,
    pub duration: nat,
    pub target: Seq<char>,
    pub from: Seq<char>,
}

/// One point of the time series: the series it belongs to, its timestamp in
/// nanoseconds, the field `duration` in whole milliseconds, and the tags
/// `target` (the probed host) and `from` (the machine that probed it).
#[derive(Debug, PartialEq, Eq)]
pub struct WriteRecord {
    pub series: String,
    pub timestamp: u128,
    pub duration: u64,
    pub target: String,
    pub from: String,
}

impl View for WriteRecord {
    type V = WriteRecordView;

    open spec fn view(&self) -> WriteRecordView {
        WriteRecordView {
            series: self.series@,
            timestamp: self.timestamp as nat,
            duration: self.duration as nat,
            target: self.target@,
            from: self.from@,
        }
    }
}

/// The record that stands for `measurement` when it was taken on the
/// machine called `origin`.
pub open spec fn record_of(measurement: MeasurementView, origin: Seq<char>) -> WriteRecordView {
    WriteRecordView {
        series: "ping_measurement"@,
        timestamp: measurement.time,
        duration: measurement.duration.stored_millis(),
        target: measurement.host,
        from: origin,
    }
}

/// What `add_measurement` answers when the machine's name cannot be had.
pub open spec fn no_origin_message() -> Seq<char> {
    "Failed to get hostname"@
}

/// What a failed delivery is reported as, given the transport's own words.
pub open spec fn delivery_message(cause: Seq<char>) -> Seq<char> {
    "Failed to write data to InfluxDB: "@ + cause
}

/// Asks the operating system for this machine's host name, through
/// `hostname::get`, and turns the answer into text, replacing what is not
/// valid UTF-8. The answer depends on the machine and the call can fail, so
/// nothing is claimed of it.
#[verifier::external_body]
fn machine_name() -> (name: Option<String>) {
    match hostname::get() {
        Ok(raw) => Some(raw.to_string_lossy().to_string()),
        Err(_) => None,
    }
}

/// Builds the write record for a measurement taken on the machine `origin`.
pub fn record_for(measurement: Measurement, origin: String) -> (record: WriteRecord)
    ensures
        record@ == record_of(measurement@, origin@),
{
    let duration: u64 = measurement.duration.to_stored_millis();
    WriteRecord {
        series: String::from_str("ping_measurement"),
        timestamp: measurement.time,
        duration,
        target: measurement.host,
        from: origin,
    }
}

/// The write records of a run that wait for delivery, with the settings of
/// the store they are meant for.
pub struct InfluxDBStore {
    config: InfluxDB,
    data: Vec<WriteRecord>,
}

impl InfluxDBStore {
    /// The buffered records, oldest first.
    pub closed spec fn records(&self) -> Seq<WriteRecord> {
        self.data@
    }

    /// The settings the store was made with.
    pub closed spec fn settings(&self) -> InfluxDB {
        self.config
    }

    /// A store for the given settings with nothing buffered.
    pub fn new(config: InfluxDB) -> (store: InfluxDBStore)
        ensures
            store.records() == Seq::<WriteRecord>::empty(),
            store.settings() == config,
    {
        InfluxDBStore { config, data: Vec::new() }
    }

    pub fn config(&self) -> (config: &InfluxDB)
        ensures
            *config == self.settings(),
    {
        &self.config
    }

    /// The number of buffered records.
    pub fn buffered(&self) -> (n: usize)
        ensures
            n == self.records().len(),
    {
        self.data.len()
    }

    /// Buffers the record of `measurement`, tagged with `origin` as the name
    /// of the collecting machine. Without a name nothing is buffered and the
    /// measurement is refused.
    pub fn add_measurement_from(
        &mut self,
        measurement: Measurement,
        origin: Option<String>,
    ) -> (outcome: Result<(), String>)
        ensures
            final(self).settings() == old(self).settings(),
            match origin {
                Some(name) => {
                    &&& outcome is Ok
                    &&& final(self).records().len() == old(self).records().len() + 1
                    &&& final(self).records().drop_last() == old(self).records()
                    &&& final(self).records().last()@ == record_of(measurement@, name@)
                },
                None => {
                    &&& final(self).records() == old(self).records()
                    &&& outcome matches Err(message)
                    &&& message@ == no_origin_message()
                },
            },
    {
        match origin {
            Some(name) => {
                let record = record_for(measurement, name);
                self.data.push(record);
                assert(self.data@.drop_last() =~= old(self).data@);
                Ok(())
            },
            None => Err(String::from_str("Failed to get hostname")),
        }
    }

    /// Buffers the record of `measurement`, tagged with this machine's name.
    /// Whether the name can be had is the operating system's to say: if so,
    /// exactly one record is appended, and it is the measurement's record
    /// for the name it carries; if not, nothing changes and the refusal says
    /// why.
    pub fn add_measurement(&mut self, measurement: Measurement) -> (outcome: Result<(), String>)
        ensures
            final(self).settings() == old(self).settings(),
            match outcome {
                Ok(_) => {
                    &&& final(self).records().len() == old(self).records().len() + 1
                    &&& final(self).records().drop_last() == old(self).records()
                    &&& final(self).records().last()@ == record_of(
                        measurement@,
                        final(self).records().last()@.from,
                    )
                },
                Err(message) => {
                    &&& final(self).records() == old(self).records()
                    &&& message@ == no_origin_message()
                },
            },
    {
        let origin = machine_name();
        self.add_measurement_from(measurement, origin)
    }

    /// The batch that a flush has to deliver: every buffered record, in
    /// order. With nothing buffered there is nothing to deliver, and the
    /// flush has succeeded as it stands.
    pub fn pending(&self) -> (batch: Option<&Vec<WriteRecord>>)
        ensures
            self.records().len() == 0 <==> batch is None,
            batch matches Some(records) ==> records@ == self.records(),
    {
        if self.data.len() == 0 {
            None
        } else {
            Some(&self.data)
        }
    }

    /// Ends a flush with the outcome of the delivery. A batch that arrived
    /// empties the buffer. One that did not leaves every record where it was
    /// and is reported with the transport's words behind a fixed prefix.
    pub fn complete_flush(&mut self, delivery: Result<(), String>) -> (outcome: Result<(), String>)
        ensures
            final(self).settings() == old(self).settings(),
            match delivery {
                Ok(_) => {
                    &&& outcome is Ok
                    &&& final(self).records() == Seq::<WriteRecord>::empty()
                },
                Err(cause) => {
                    &&& final(self).records() == old(self).records()
                    &&& outcome matches Err(message)
                    &&& message@ == delivery_message(cause@)
                },
            },
    {
        match delivery {
            Ok(_) => {
                self.data.clear();
                Ok(())
            },
            Err(cause) => Err(
                String::from_str("Failed to write data to InfluxDB: ").concat(cause.as_str()),
            ),
        }
    }
}

} // verus!
