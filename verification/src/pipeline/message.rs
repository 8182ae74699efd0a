//! Messages of the processor pipeline.
use vstd::prelude::*;

use crate::domain::time::UtcTimestamp;

verus! {

#[derive(Debug)]
pub struct AcceptedBundle {
    bundle_hash: String,
    target_block: i64,
    tx_count: i16,
    received_at: UtcTimestamp,
}

impl AcceptedBundle {
    pub closed spec fn spec_bundle_hash(&self) -> Seq<char> {
        self.bundle_hash@
    }

    pub closed spec fn spec_target_block(&self) -> i64 {
        self.target_block
    }

    pub closed spec fn spec_tx_count(&self) -> i16 {
        self.tx_count
    }

    pub closed spec fn spec_received_at(&self) -> UtcTimestamp {
        self.received_at
    }

    pub fn new(bundle_hash: String, target_block: i64, tx_count: i16, received_at: UtcTimestamp) -> (b:
        Self)
        ensures
            b.spec_bundle_hash() == bundle_hash@,
            b.spec_target_block() == target_block,
            b.spec_tx_count() == tx_count,
            b.spec_received_at() == received_at,
    {
        Self { bundle_hash, target_block, tx_count, received_at }
    }

    pub fn bundle_hash(&self) -> (r: &str)
        ensures
            r@ == self.spec_bundle_hash(),
    {
        self.bundle_hash.as_str()
    }

    pub fn target_block(&self) -> (r: i64)
        ensures
            r == self.spec_target_block(),
    {
        self.target_block
    }

    pub fn tx_count(&self) -> (r: i16)
        ensures
            r == self.spec_tx_count(),
    {
        self.tx_count
    }

    pub fn received_at(&self) -> (r: UtcTimestamp)
        ensures
            r == self.spec_received_at(),
    {
        self.received_at
    }
}

#[derive(Debug)]
pub enum PipelineMessage {
    BundleAccepted(AcceptedBundle),
    Shutdown,
}

} // verus!
