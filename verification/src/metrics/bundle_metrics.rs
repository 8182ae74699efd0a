//! Counters of what became of the bundles the pipeline saw.
use vstd::prelude::*;

verus! {

/// The four counts, as numbers.
pub struct BundleCounts {
    pub accepted: u64,
    pub rejected: u64,
    pub processed: u64,
    pub failed: u64,
}

/// `n + 1`, wrapping to 0 past `u64::MAX`, as an atomic `fetch_add` does.
pub open spec fn bump(n: u64) -> u64 {
    if n == u64::MAX {
        0
    } else {
        (n + 1) as u64
    }
}

/// Counters of bundles accepted into or rejected from the simulation queue,
/// and of results stored or lost. Each counter wraps around at 2^64.
pub struct BundleMetrics {
    bundles_accepted: u64,
    bundles_rejected: u64,
    bundles_processed: u64,
    bundles_failed: u64,
}

impl View for BundleMetrics {
    type V = BundleCounts;

    closed spec fn view(&self) -> BundleCounts {
        BundleCounts {
            accepted: self.bundles_accepted,
            rejected: self.bundles_rejected,
            processed: self.bundles_processed,
            failed: self.bundles_failed,
        }
    }
}

impl Default for BundleMetrics {
    /// All four counters at zero.
    fn default() -> (m: Self)
        ensures
            m@ == (BundleCounts { accepted: 0, rejected: 0, processed: 0, failed: 0 }),
    {
        BundleMetrics { bundles_accepted: 0, bundles_rejected: 0, bundles_processed: 0, bundles_failed: 0 }
    }
}

impl BundleMetrics {
    pub fn record_accepted(&mut self)
        ensures
            final(self)@ == (BundleCounts { accepted: bump(old(self)@.accepted), ..old(self)@ }),
            final(self)@ == counts_after_call(old(self)@, CounterCall::RecordAccepted),
    {
        self.bundles_accepted = self.bundles_accepted.wrapping_add(1);
    }

    pub fn record_rejected(&mut self)
        ensures
            final(self)@ == (BundleCounts { rejected: bump(old(self)@.rejected), ..old(self)@ }),
            final(self)@ == counts_after_call(old(self)@, CounterCall::RecordRejected),
    {
        self.bundles_rejected = self.bundles_rejected.wrapping_add(1);
    }

    pub fn record_processed(&mut self)
        ensures
            final(self)@ == (BundleCounts { processed: bump(old(self)@.processed), ..old(self)@ }),
            final(self)@ == counts_after_call(old(self)@, CounterCall::RecordProcessed),
    {
        self.bundles_processed = self.bundles_processed.wrapping_add(1);
    }

    pub fn record_failed(&mut self)
        ensures
            final(self)@ == (BundleCounts { failed: bump(old(self)@.failed), ..old(self)@ }),
            final(self)@ == counts_after_call(old(self)@, CounterCall::RecordFailed),
    {
        self.bundles_failed = self.bundles_failed.wrapping_add(1);
    }

    pub fn snapshot_accepted(&self) -> (n: u64)
        ensures
            n == self@.accepted,
    {
        self.bundles_accepted
    }

    pub fn snapshot_rejected(&self) -> (n: u64)
        ensures
            n == self@.rejected,
    {
        self.bundles_rejected
    }

    pub fn snapshot_processed(&self) -> (n: u64)
        ensures
            n == self@.processed,
    {
        self.bundles_processed
    }

    pub fn snapshot_failed(&self) -> (n: u64)
        ensures
            n == self@.failed,
    {
        self.bundles_failed
    }
}

/// `n + k` modulo 2^64.
pub open spec fn wrapping_plus(n: u64, k: nat) -> u64 {
    ((n + k) % 0x1_0000_0000_0000_0000) as u64
}

/// A call that moves a counter.
pub enum CounterCall {
    RecordAccepted,
    RecordRejected,
    RecordProcessed,
    RecordFailed,
}

/// The counts after one call: the call's own counter goes up by one
/// (wrapping), as the `record_*` methods state.
pub open spec fn counts_after_call(c: BundleCounts, call: CounterCall) -> BundleCounts {
    match call {
        CounterCall::RecordAccepted => BundleCounts { accepted: bump(c.accepted), ..c },
        CounterCall::RecordRejected => BundleCounts { rejected: bump(c.rejected), ..c },
        CounterCall::RecordProcessed => BundleCounts { processed: bump(c.processed), ..c },
        CounterCall::RecordFailed => BundleCounts { failed: bump(c.failed), ..c },
    }
}

/// The counts after a sequence of calls, in order. (Snapshots read the
/// counts and change nothing, so they do not appear.)
pub open spec fn counts_after_calls(c: BundleCounts, calls: Seq<CounterCall>) -> BundleCounts
    decreases calls.len(),
{
    if calls.len() == 0 {
        c
    } else {
        counts_after_call(counts_after_calls(c, calls.drop_last()), calls.last())
    }
}

/// How many of the calls are `call`.
pub open spec fn calls_of(calls: Seq<CounterCall>, call: CounterCall) -> nat
    decreases calls.len(),
{
    if calls.len() == 0 {
        0
    } else {
        calls_of(calls.drop_last(), call) + if calls.last() == call {
            1nat
        } else {
            0nat
        }
    }
}

/// Counting: after any sequence of calls, each counter has grown by the
/// number of calls that record it, modulo 2^64; calls for the other
/// counters leave it as it was.
pub proof fn lemma_counters_count_their_calls(c: BundleCounts, calls: Seq<CounterCall>)
    ensures
        counts_after_calls(c, calls).accepted == wrapping_plus(
            c.accepted,
            calls_of(calls, CounterCall::RecordAccepted),
        ),
        counts_after_calls(c, calls).rejected == wrapping_plus(
            c.rejected,
            calls_of(calls, CounterCall::RecordRejected),
        ),
        counts_after_calls(c, calls).processed == wrapping_plus(
            c.processed,
            calls_of(calls, CounterCall::RecordProcessed),
        ),
        counts_after_calls(c, calls).failed == wrapping_plus(
            c.failed,
            calls_of(calls, CounterCall::RecordFailed),
        ),
    decreases calls.len(),
{
    if calls.len() > 0 {
        lemma_counters_count_their_calls(c, calls.drop_last());
    }
}

} // verus!
