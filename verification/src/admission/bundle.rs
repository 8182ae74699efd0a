//! Admission of bundle jobs into the simulation queue.
//!
//! The queue itself is a channel of the async runtime; what the library
//! decides is what its answer means: the result given to the client and the
//! counters kept.
use vstd::prelude::*;

use crate::config::AdmissionPolicy;
use crate::metrics::bundle_metrics::{bump, wrapping_plus, BundleCounts, BundleMetrics};

verus! {

/// The answer to a request to admit a job.
pub enum AdmitResult {
    Accepted,
    RejectedQueueFull,
    RejectedSubsystemDown,
}

/// What the simulation queue reported when a job was handed to it.
pub enum EnqueueOutcome {
    /// The job is in the queue.
    Enqueued,
    /// A bounded queue refused the job because it was full (reject mode).
    Full,
    /// Nobody reads the queue any more.
    Closed,
}

/// How a job is handed to the simulation queue.
#[derive(Clone, Copy, Debug)]
pub enum SendMode {
    /// Into an unbounded queue; the hand-off never finds it full (mode A).
    Unbounded,
    /// Into a bounded queue, waiting for room when it is full (mode B).
    WaitForRoom,
    /// Into a bounded queue, once, giving up when it is full (mode C).
    TryOnce,
}

/// The hand-off each admission policy makes.
pub open spec fn spec_send_mode(policy: AdmissionPolicy) -> SendMode {
    match policy {
        AdmissionPolicy::Unbounded => SendMode::Unbounded,
        AdmissionPolicy::WaitWhenFull => SendMode::WaitForRoom,
        AdmissionPolicy::RejectWhenFull => SendMode::TryOnce,
    }
}

/// The hand-off a policy makes.
pub fn send_mode(policy: AdmissionPolicy) -> (mode: SendMode)
    ensures
        mode == spec_send_mode(policy),
{
    match policy {
        AdmissionPolicy::Unbounded => SendMode::Unbounded,
        AdmissionPolicy::WaitWhenFull => SendMode::WaitForRoom,
        AdmissionPolicy::RejectWhenFull => SendMode::TryOnce,
    }
}

/// The outcomes a hand-off can report: only a single try finds the queue
/// full; the other two either enqueue the job or find the queue closed.
pub open spec fn mode_can_report(mode: SendMode, outcome: EnqueueOutcome) -> bool {
    outcome is Full ==> mode is TryOnce
}

/// The answer that an outcome of the hand-off gives.
pub open spec fn admit_result_for(outcome: EnqueueOutcome) -> AdmitResult {
    match outcome {
        EnqueueOutcome::Enqueued => AdmitResult::Accepted,
        EnqueueOutcome::Full => AdmitResult::RejectedQueueFull,
        EnqueueOutcome::Closed => AdmitResult::RejectedSubsystemDown,
    }
}

/// The counters after one hand-off: an enqueued job is counted as accepted,
/// a job refused by a full queue as rejected, and nothing is counted when
/// the queue is closed.
pub open spec fn counts_after(c: BundleCounts, outcome: EnqueueOutcome) -> BundleCounts {
    match outcome {
        EnqueueOutcome::Enqueued => BundleCounts { accepted: bump(c.accepted), ..c },
        EnqueueOutcome::Full => BundleCounts { rejected: bump(c.rejected), ..c },
        EnqueueOutcome::Closed => c,
    }
}

/// Settles one admission attempt: records it and gives the answer.
pub fn settle_admission(mode: SendMode, outcome: EnqueueOutcome, metrics: &mut BundleMetrics) -> (res:
    AdmitResult)
    requires
        mode_can_report(mode, outcome),
    ensures
        res == admit_result_for(outcome),
        res is RejectedQueueFull ==> mode is TryOnce,
        final(metrics)@ == counts_after(old(metrics)@, outcome),
{
    match outcome {
        EnqueueOutcome::Enqueued => {
            metrics.record_accepted();
            AdmitResult::Accepted
        },
        EnqueueOutcome::Full => {
            metrics.record_rejected();
            AdmitResult::RejectedQueueFull
        },
        EnqueueOutcome::Closed => AdmitResult::RejectedSubsystemDown,
    }
}


/// The counters after a sequence of hand-offs, in order.
pub open spec fn counts_after_all(c: BundleCounts, outcomes: Seq<EnqueueOutcome>) -> BundleCounts
    decreases outcomes.len(),
{
    if outcomes.len() == 0 {
        c
    } else {
        counts_after(counts_after_all(c, outcomes.drop_last()), outcomes.last())
    }
}

/// How many of the outcomes are `Enqueued`.
pub open spec fn enqueued_count(outcomes: Seq<EnqueueOutcome>) -> nat
    decreases outcomes.len(),
{
    if outcomes.len() == 0 {
        0
    } else {
        enqueued_count(outcomes.drop_last()) + if outcomes.last() is Enqueued {
            1nat
        } else {
            0nat
        }
    }
}

/// How many of the outcomes are `Full`.
pub open spec fn full_count(outcomes: Seq<EnqueueOutcome>) -> nat
    decreases outcomes.len(),
{
    if outcomes.len() == 0 {
        0
    } else {
        full_count(outcomes.drop_last()) + if outcomes.last() is Full {
            1nat
        } else {
            0nat
        }
    }
}

/// Accounting of admission: after any sequence of hand-offs, the accepted
/// counter has grown by the number of enqueued jobs and the rejected counter
/// by the number refused by a full queue (both modulo 2^64); a closed queue
/// counts nothing, and the storage counters do not move.
pub proof fn lemma_admission_accounting(c: BundleCounts, outcomes: Seq<EnqueueOutcome>)
    ensures
        counts_after_all(c, outcomes).accepted == wrapping_plus(c.accepted, enqueued_count(outcomes)),
        counts_after_all(c, outcomes).rejected == wrapping_plus(c.rejected, full_count(outcomes)),
        counts_after_all(c, outcomes).processed == c.processed,
        counts_after_all(c, outcomes).failed == c.failed,
    decreases outcomes.len(),
{
    if outcomes.len() > 0 {
        lemma_admission_accounting(c, outcomes.drop_last());
    }
}

/// Admission modes: only the reject policy ever answers "queue full"; under
/// the unbounded and the waiting policy a job is either accepted or refused
/// because the pipeline is gone.
pub proof fn lemma_only_reject_policy_reports_full(policy: AdmissionPolicy, outcome: EnqueueOutcome)
    requires
        mode_can_report(spec_send_mode(policy), outcome),
    ensures
        admit_result_for(outcome) is RejectedQueueFull ==> policy is RejectWhenFull,
        !(policy is RejectWhenFull) ==> (admit_result_for(outcome) is Accepted || admit_result_for(
            outcome,
        ) is RejectedSubsystemDown),
{
}

/// The answer and the counters tell the same story: a job is answered
/// `Accepted` exactly when the queue took it, and then only the accepted
/// counter moves (by one); a job refused by a full queue moves only the
/// rejected counter; a closed queue is answered as a subsystem failure and
/// moves no counter.
pub proof fn lemma_answer_agrees_with_counters(c: BundleCounts, outcome: EnqueueOutcome)
    ensures
        (admit_result_for(outcome) is Accepted) <==> (outcome is Enqueued),
        (admit_result_for(outcome) is RejectedQueueFull) <==> (outcome is Full),
        (admit_result_for(outcome) is RejectedSubsystemDown) <==> (outcome is Closed),
        admit_result_for(outcome) is Accepted ==> counts_after(c, outcome) == (BundleCounts {
            accepted: bump(c.accepted),
            ..c
        }),
        admit_result_for(outcome) is RejectedQueueFull ==> counts_after(c, outcome) == (
        BundleCounts { rejected: bump(c.rejected), ..c }),
        admit_result_for(outcome) is RejectedSubsystemDown ==> counts_after(c, outcome) == c,
{
}

} // verus!
