use btl::admission::bundle::{send_mode, settle_admission, AdmitResult, EnqueueOutcome, SendMode};
use btl::config::AdmissionPolicy;
use btl::metrics::bundle_metrics::BundleMetrics;

#[test]
fn enqueued_job_is_accepted_and_counted() {
    let mut m = BundleMetrics::default();
    assert!(matches!(settle_admission(SendMode::TryOnce, EnqueueOutcome::Enqueued, &mut m), AdmitResult::Accepted));
    assert_eq!(m.snapshot_accepted(), 1);
    assert_eq!(m.snapshot_rejected(), 0);
}

#[test]
fn full_queue_rejects_and_counts() {
    let mut m = BundleMetrics::default();
    assert!(matches!(settle_admission(SendMode::TryOnce, EnqueueOutcome::Full, &mut m), AdmitResult::RejectedQueueFull));
    assert_eq!(m.snapshot_accepted(), 0);
    assert_eq!(m.snapshot_rejected(), 1);
}

#[test]
fn closed_queue_is_reported_and_not_counted() {
    let mut m = BundleMetrics::default();
    assert!(matches!(
        settle_admission(SendMode::TryOnce, EnqueueOutcome::Closed, &mut m),
        AdmitResult::RejectedSubsystemDown
    ));
    assert_eq!(m.snapshot_accepted(), 0);
    assert_eq!(m.snapshot_rejected(), 0);
    assert_eq!(m.snapshot_processed(), 0);
    assert_eq!(m.snapshot_failed(), 0);
}

#[test]
fn counters_add_up_over_a_run() {
    let mut m = BundleMetrics::default();
    let run = [
        EnqueueOutcome::Enqueued,
        EnqueueOutcome::Full,
        EnqueueOutcome::Enqueued,
        EnqueueOutcome::Closed,
        EnqueueOutcome::Full,
        EnqueueOutcome::Enqueued,
    ];
    for o in run {
        settle_admission(SendMode::TryOnce, o, &mut m);
    }
    assert_eq!(m.snapshot_accepted(), 3);
    assert_eq!(m.snapshot_rejected(), 2);
    assert_eq!(m.snapshot_processed(), 0);
    assert_eq!(m.snapshot_failed(), 0);
}

#[test]
fn each_policy_makes_its_own_hand_off() {
    assert!(matches!(send_mode(AdmissionPolicy::Unbounded), SendMode::Unbounded));
    assert!(matches!(send_mode(AdmissionPolicy::WaitWhenFull), SendMode::WaitForRoom));
    assert!(matches!(send_mode(AdmissionPolicy::RejectWhenFull), SendMode::TryOnce));
}

#[test]
fn unbounded_and_waiting_modes_accept_or_report_the_pipeline_down() {
    for mode in [SendMode::Unbounded, SendMode::WaitForRoom] {
        let mut m = BundleMetrics::default();
        assert!(matches!(settle_admission(mode, EnqueueOutcome::Enqueued, &mut m), AdmitResult::Accepted));
        assert!(matches!(
            settle_admission(mode, EnqueueOutcome::Closed, &mut m),
            AdmitResult::RejectedSubsystemDown
        ));
        assert_eq!(m.snapshot_accepted(), 1);
        assert_eq!(m.snapshot_rejected(), 0);
    }
}
