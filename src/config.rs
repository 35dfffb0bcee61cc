//! The indexer's settings and their defaults.

use vstd::prelude::*;

verus! {

/// Settings of the indexer process.
#[derive(Debug, Clone)]
pub struct IndexerConfig {
    /// Base URL of the Horizon service.
    pub stellar_horizon_url: String,
    /// Connection string of the offer store.
    pub database_url: String,
    /// Seconds between two polls of the service.
    pub poll_interval_secs: u64,
    /// Records requested per page.
    pub horizon_limit: u32,
}

/// The poll interval used when none is configured: two seconds.
pub fn default_poll_interval_secs() -> (r: u64)
    ensures
        r == 2,
{
    2
}

/// The page size used when none is configured: 200 records.
pub fn default_horizon_limit() -> (r: u32)
    ensures
        r == 200,
{
    200
}

} // verus!
