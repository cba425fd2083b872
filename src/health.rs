//! Freshness of the indexer that serves market data.
use vstd::prelude::*;

verus! {

/// Data older than this, in milliseconds, is stale.
pub const MAX_HEALTHY_DELAY_MS: u64 = 5000;

/// One health probe of the indexer.
#[derive(Debug, Clone, Copy, PartialEq, Eq, Structural)]
pub struct EnvioHealth {
    pub latency_ms: u64,
    pub block_number: u64,
    pub block_timestamp: u64,
    pub data_delay_ms: u64,
    pub is_healthy: bool,
}

impl EnvioHealth {
    /// The health of a probe that took `latency_ms` and saw block
    /// `block_number` stamped `block_timestamp`, at `now` (both in seconds).
    pub fn from_probe(latency_ms: u64, block_number: u64, block_timestamp: u64, now: u64) -> (r:
        EnvioHealth)
        requires
            block_timestamp <= now,
            (now - block_timestamp) * 1000 <= u64::MAX,
        ensures
            r.latency_ms == latency_ms,
            r.block_number == block_number,
            r.block_timestamp == block_timestamp,
            r.data_delay_ms == (now - block_timestamp) * 1000,
            r.is_healthy == (r.data_delay_ms < MAX_HEALTHY_DELAY_MS),
    {
        let data_delay_ms = (now - block_timestamp) * 1000;
        EnvioHealth {
            latency_ms,
            block_number,
            block_timestamp,
            data_delay_ms,
            is_healthy: data_delay_ms < MAX_HEALTHY_DELAY_MS,
        }
    }
}

} // verus!
