//! A bundle waiting to be simulated.
use vstd::prelude::*;

use crate::domain::time::UtcTimestamp;

verus! {

#[derive(Debug, Clone)]
pub struct BundleSimulationJob {
    pub bundle_hash: String,
    pub target_block: i64,
    pub tx_count: i16,
    pub received_at: UtcTimestamp,
}

} // verus!
