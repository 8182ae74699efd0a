//! What the simulation stage hands to storage.
use vstd::prelude::*;

use crate::domain::time::UtcTimestamp;

verus! {

#[derive(Debug, Clone)]
pub struct BundleProcessingResult {
    pub bundle_hash: String,
    pub target_block: i64,
    pub tx_count: i16,
    pub received_at: UtcTimestamp,
    pub simulation_started_at: UtcTimestamp,
    pub simulation_completed_at: UtcTimestamp,
    pub queue_wait_us: i64,
    pub simulation_duration_us: i64,
}

} // verus!
