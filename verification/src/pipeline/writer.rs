//! The decisions of the storage writer: what a stored or failed row counts as.
use vstd::prelude::*;

use crate::metrics::bundle_metrics::{
    counts_after_call, wrapping_plus, BundleCounts, BundleMetrics, CounterCall,
};

verus! {

/// What writing a result row to storage came to.
pub enum StoreOutcome {
    /// The row was written.
    Stored,
    /// The write failed (a storage error).
    Failed,
}

/// The counters after one write: a stored row is counted as processed, a
/// failed one as failed.
pub open spec fn counts_after_store(c: BundleCounts, outcome: StoreOutcome) -> BundleCounts {
    match outcome {
        StoreOutcome::Stored => counts_after_call(c, CounterCall::RecordProcessed),
        StoreOutcome::Failed => counts_after_call(c, CounterCall::RecordFailed),
    }
}

/// Settles one write: records it and says whether the row was stored.
pub fn settle_storage(outcome: StoreOutcome, metrics: &mut BundleMetrics) -> (stored: bool)
    ensures
        stored == (outcome is Stored),
        final(metrics)@ == counts_after_store(old(metrics)@, outcome),
{
    match outcome {
        StoreOutcome::Stored => {
            metrics.record_processed();
            true
        },
        StoreOutcome::Failed => {
            metrics.record_failed();
            false
        },
    }
}

/// The counters after a run of writes, in order.
pub open spec fn counts_after_stores(c: BundleCounts, outcomes: Seq<StoreOutcome>) -> BundleCounts
    decreases outcomes.len(),
{
    if outcomes.len() == 0 {
        c
    } else {
        counts_after_store(counts_after_stores(c, outcomes.drop_last()), outcomes.last())
    }
}

/// How many of the writes stored their row.
pub open spec fn stored_count(outcomes: Seq<StoreOutcome>) -> nat
    decreases outcomes.len(),
{
    if outcomes.len() == 0 {
        0
    } else {
        stored_count(outcomes.drop_last()) + if outcomes.last() is Stored {
            1nat
        } else {
            0nat
        }
    }
}

/// Accounting of storage: over any run of writes, the processed counter
/// grows by the number of rows stored and the failed counter by the number
/// of failed writes (modulo 2^64), so that together they grow by the number
/// of rows; the admission counters do not move.
pub proof fn lemma_storage_accounting(c: BundleCounts, outcomes: Seq<StoreOutcome>)
    ensures
        counts_after_stores(c, outcomes).processed == wrapping_plus(c.processed, stored_count(outcomes)),
        counts_after_stores(c, outcomes).failed == wrapping_plus(
            c.failed,
            (outcomes.len() - stored_count(outcomes)) as nat,
        ),
        stored_count(outcomes) <= outcomes.len(),
        counts_after_stores(c, outcomes).accepted == c.accepted,
        counts_after_stores(c, outcomes).rejected == c.rejected,
    decreases outcomes.len(),
{
    if outcomes.len() > 0 {
        lemma_storage_accounting(c, outcomes.drop_last());
    }
}

} // verus!
