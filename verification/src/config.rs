//! The settings of one collection run.
use vstd::prelude::*;

verus! {

/// The number of probes sent to each host when the settings name none.
pub fn default_ping_count() -> (count: u8)
    ensures
        count == 10,
{
    10
}

/// Where the time-series store is and how to sign in to it.
#[derive(Debug, PartialEq, Eq)]
pub struct InfluxDB {
    pub host: String,
    pub db: String,
    pub token: Option<String>,
}

/// The settings of a run: how many probes each host gets, which hosts are
/// probed, and the store that takes the results.
#[derive(Debug, PartialEq, Eq)]
pub struct Config {
    pub ping_count: u8,
    pub ping_targets: Vec<String>,
    pub influxdb: InfluxDB,
}

/// Why a run cannot start on the given settings.
#[derive(Clone, Copy, Debug, PartialEq, Eq)]
pub enum ConfigError {
    /// `ping_count` is zero.
    NoPings,
    /// `ping_targets` is empty.
    NoTargets,
    /// The target at this index is the empty string.
    EmptyTarget(usize),
}

impl Config {
    /// Whether the first `upto` targets are all non-empty.
    pub open spec fn targets_named(&self, upto: int) -> bool {
        forall|k: int| 0 <= k < upto ==> (#[trigger] self.ping_targets@[k])@.len() > 0
    }

    /// Settings a run can start on: at least one probe per host, at least
    /// one host, and no host without a name.
    pub open spec fn valid(&self) -> bool {
        &&& self.ping_count > 0
        &&& self.ping_targets@.len() > 0
        &&& self.targets_named(self.ping_targets@.len() as int)
    }

    /// Validates the settings, and names the first thing that is wrong with
    /// them: the probe count before the list of targets, the list before its
    /// entries, and of the entries the first that is empty.
    pub fn validate(&self) -> (outcome: Result<(), ConfigError>)
        ensures
            outcome is Ok <==> self.valid(),
            self.ping_count == 0 ==> outcome == Err::<(), ConfigError>(ConfigError::NoPings),
            self.ping_count > 0 && self.ping_targets@.len() == 0 ==> outcome == Err::<
                (),
                ConfigError,
            >(ConfigError::NoTargets),
            self.ping_count > 0 && self.ping_targets@.len() > 0 && !self.valid() ==> {
                &&& outcome matches Err(ConfigError::EmptyTarget(at))
                &&& at < self.ping_targets@.len()
                &&& self.ping_targets@[at as int]@.len() == 0
                &&& self.targets_named(at as int)
            },
    {
        if self.ping_count == 0 {
            return Err(ConfigError::NoPings);
        }
        if self.ping_targets.len() == 0 {
            return Err(ConfigError::NoTargets);
        }
        let mut i: usize = 0;
        while i < self.ping_targets.len()
            invariant
                self.ping_count > 0,
                i <= self.ping_targets@.len(),
                self.targets_named(i as int),
            decreases self.ping_targets@.len() - i,
        {
            if self.ping_targets[i].as_str().is_empty() {
                return Err(ConfigError::EmptyTarget(i));
            }
            i = i + 1;
        }
        Ok(())
    }
}

} // verus!
