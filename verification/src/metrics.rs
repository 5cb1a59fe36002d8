//! The metrics endpoint: a snapshot of the metrics that is taken every now and then.

use vstd::prelude::*;

use crate::text;

verus! {

/// The content type of the text format in which metrics are exposed.
pub const PROMETHEUS_CONTENT_TYPE: &'static str = "text/plain; version=0.0.4";

/// Where the metrics are served.
pub const METRICS_PATH: &'static str = "/metrics";

/// The task that takes the snapshots.
pub const RUNNER_TASK: &'static str = "metrics_runner";

/// How frequently a snapshot is taken, in seconds.
pub const RUNNER_INTERVAL_SECS: u64 = 5;

/// Holds the latest snapshot of the metrics.
#[derive(Debug)]
pub struct MetricsCache {
    buffer: Vec<u8>,
}

impl View for MetricsCache {
    type V = Seq<u8>;

    closed spec fn view(&self) -> Seq<u8> {
        self.buffer@
    }
}

impl MetricsCache {
    /// Before the first snapshot there is nothing.
    pub fn new() -> (cache: MetricsCache)
        ensures
            cache@ == Seq::<u8>::empty(),
    {
        MetricsCache { buffer: Vec::new() }
    }

    /// Stores a new snapshot.
    pub fn store(&mut self, snapshot: Vec<u8>)
        ensures
            final(self)@ == snapshot@,
    {
        self.buffer = snapshot;
    }
}

/// The content type and the latest snapshot.
pub fn handler(cache: &MetricsCache) -> (response: (&'static str, &Vec<u8>))
    ensures
        response.0@ == PROMETHEUS_CONTENT_TYPE@,
        response.1@ == cache@,
{
    (PROMETHEUS_CONTENT_TYPE, &cache.buffer)
}

/// Why the metrics could not be updated.
#[derive(Debug, PartialEq, Eq)]
pub enum MetricsError {
    AdvanceEpoch(String),
    ReadStats(String),
    Encode(String),
}

impl MetricsError {
    pub open spec fn message(self) -> Seq<char> {
        match self {
            MetricsError::AdvanceEpoch(e) => "unable to advance epoch: "@ + e@,
            MetricsError::ReadStats(e) => "unable to read stats: "@ + e@,
            MetricsError::Encode(e) => e@,
        }
    }

    pub fn to_text(&self) -> (text: String)
        ensures
            text@ == self.message(),
    {
        match self {
            MetricsError::AdvanceEpoch(e) => text::join("unable to advance epoch: ", e.as_str()),
            MetricsError::ReadStats(e) => text::join("unable to read stats: ", e.as_str()),
            MetricsError::Encode(e) => e.clone(),
        }
    }
}

/// Keeps track of the memory that is used, and takes the snapshots.
#[derive(Clone, Copy, Debug, PartialEq, Eq)]
pub struct MetricsRunner {
    /// Allocated memory in bytes.
    pub mem_allocated: i64,
    /// Resident memory in bytes.
    pub mem_resident: i64,
}

impl MetricsRunner {
    pub fn new() -> (runner: MetricsRunner)
        ensures
            runner == (MetricsRunner { mem_allocated: 0, mem_resident: 0 }),
    {
        MetricsRunner { mem_allocated: 0, mem_resident: 0 }
    }

    /// Records the memory usage. The first failure ends it: what comes after it is not recorded.
    pub fn record_memory(
        &mut self,
        epoch: Result<(), String>,
        allocated: Result<usize, String>,
        resident: Result<usize, String>,
    ) -> (result: Result<(), MetricsError>)
        ensures
            match (epoch, allocated, resident) {
                (Err(e), _, _) => {
                    &&& result == Err::<(), MetricsError>(MetricsError::AdvanceEpoch(e))
                    &&& *final(self) == *old(self)
                },
                (Ok(()), Err(e), _) => {
                    &&& result == Err::<(), MetricsError>(MetricsError::ReadStats(e))
                    &&& *final(self) == *old(self)
                },
                (Ok(()), Ok(allocated), Err(e)) => {
                    &&& result == Err::<(), MetricsError>(MetricsError::ReadStats(e))
                    &&& *final(self) == (MetricsRunner {
                        mem_allocated: allocated as i64,
                        ..*old(self)
                    })
                },
                (Ok(()), Ok(allocated), Ok(resident)) => {
                    &&& result == Ok::<(), MetricsError>(())
                    &&& *final(self) == (MetricsRunner {
                        mem_allocated: allocated as i64,
                        mem_resident: resident as i64,
                    })
                },
            },
    {
        match epoch {
            Ok(()) => {},
            Err(e) => {
                return Err(MetricsError::AdvanceEpoch(e));
            },
        }
        match allocated {
            Ok(bytes) => {
                self.mem_allocated = bytes as i64;
            },
            Err(e) => {
                return Err(MetricsError::ReadStats(e));
            },
        }
        match resident {
            Ok(bytes) => {
                self.mem_resident = bytes as i64;
            },
            Err(e) => {
                return Err(MetricsError::ReadStats(e));
            },
        }
        Ok(())
    }

    /// Updates the snapshot, once the memory usage has been recorded and the metrics have been
    /// encoded. After a failure the former snapshot stays.
    pub fn update(
        recorded: Result<(), MetricsError>,
        encoded: Result<Vec<u8>, String>,
        cache: &mut MetricsCache,
    ) -> (result: Result<(), MetricsError>)
        ensures
            match (recorded, encoded) {
                (Err(e), _) => {
                    &&& result == Err::<(), MetricsError>(e)
                    &&& final(cache)@ == old(cache)@
                },
                (Ok(()), Err(e)) => {
                    &&& result == Err::<(), MetricsError>(MetricsError::Encode(e))
                    &&& final(cache)@ == old(cache)@
                },
                (Ok(()), Ok(snapshot)) => {
                    &&& result == Ok::<(), MetricsError>(())
                    &&& final(cache)@ == snapshot@
                },
            },
    {
        match recorded {
            Ok(()) => {},
            Err(e) => {
                return Err(e);
            },
        }
        match encoded {
            Ok(snapshot) => {
                cache.store(snapshot);
                Ok(())
            },
            Err(e) => Err(MetricsError::Encode(e)),
        }
    }
}

/// The message of an error holds its cause in full.
pub proof fn metrics_errors_hold_their_cause(cause: String)
    ensures
        MetricsError::AdvanceEpoch(cause).message() == "unable to advance epoch: "@ + cause@,
        MetricsError::ReadStats(cause).message() == "unable to read stats: "@ + cause@,
        MetricsError::Encode(cause).message() == cause@,
{
}

} // verus!
