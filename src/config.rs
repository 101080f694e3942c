//! The harness's settings.

use vstd::prelude::*;
use vstd::string::*;

verus! {

/// How many record pairs a run writes at most.
pub const DEFAULT_LOOP_COUNT: usize = 1000000;

/// The settings of one run of the harness.
pub struct Args {
    /// The directory that holds the store.
    pub storage_dir: String,
    /// How long to wait between flush pairs, in milliseconds.
    pub flush_interval_ms: usize,
    /// Whether writes go through the store's write-ahead log.
    pub wal_enabled: bool,
}

impl Args {
    /// The settings used when none are given: the `storage` directory, a
    /// flush pair every second, and no write-ahead log.
    pub fn defaults() -> (r: Args)
        ensures
            r.storage_dir@ == "storage"@,
            r.flush_interval_ms == 1000,
            !r.wal_enabled,
    {
        Args { storage_dir: String::from_str("storage"), flush_interval_ms: 1000, wal_enabled: false }
    }
}

} // verus!
