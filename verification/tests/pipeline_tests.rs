use btl::metrics::bundle_metrics::BundleMetrics;
use btl::pipeline::writer::{settle_storage, StoreOutcome};
use btl::domain::job::BundleSimulationJob;
use btl::domain::time::{elapsed_micros, UtcTimestamp};
use btl::pipeline::ingest::IngestError;
use btl::pipeline::message::{AcceptedBundle, PipelineMessage};
use btl::pipeline::processor::{processor_step, simulation_timings, ProcessorStep};
use btl::pipeline::simulation::{queue_wait_us, simulation_result};

fn t(secs: i64, nanos: u32) -> UtcTimestamp {
    UtcTimestamp::new(secs, nanos).unwrap()
}

#[test]
fn timestamps_need_nanos_below_one_second() {
    assert!(UtcTimestamp::new(0, 999_999_999).is_some());
    assert!(UtcTimestamp::new(0, 1_000_000_000).is_none());
    let x = t(-5, 7);
    assert_eq!(x.secs(), -5);
    assert_eq!(x.subsec_nanos(), 7);
}

#[test]
fn elapsed_micros_truncates_toward_zero() {
    assert_eq!(elapsed_micros(&t(10, 500), &t(12, 0)), 1_999_999);
    assert_eq!(elapsed_micros(&t(9, 999_999_999), &t(10, 500)), 0);
    assert_eq!(elapsed_micros(&t(1, 0), &t(1, 1_000)), 1);
    assert_eq!(elapsed_micros(&t(1, 0), &t(1, 999)), 0);
}

#[test]
fn elapsed_micros_is_never_negative() {
    assert_eq!(elapsed_micros(&t(12, 0), &t(10, 0)), 0);
    assert_eq!(elapsed_micros(&t(5, 5), &t(5, 5)), 0);
}

#[test]
fn elapsed_micros_beyond_i64_counts_as_zero() {
    assert_eq!(elapsed_micros(&t(i64::MIN, 0), &t(i64::MAX, 0)), 0);
    let one_day = 86_400_000_000i64;
    assert_eq!(elapsed_micros(&t(0, 0), &t(86_400, 0)), one_day);
}

fn job(received_at: UtcTimestamp) -> BundleSimulationJob {
    BundleSimulationJob {
        bundle_hash: "0x0000000000000001".to_string(),
        target_block: 42,
        tx_count: 3,
        received_at,
    }
}

#[test]
fn queue_wait_runs_from_receipt_to_start() {
    assert_eq!(queue_wait_us(&job(t(100, 0)), &t(100, 250_000)), 250);
    assert_eq!(queue_wait_us(&job(t(100, 0)), &t(99, 0)), 0);
}

#[test]
fn simulation_result_copies_the_job_and_adds_timings() {
    let r = simulation_result(job(t(100, 0)), t(101, 0), t(101, 500_000_000), 500_123);
    assert_eq!(r.bundle_hash, "0x0000000000000001");
    assert_eq!(r.target_block, 42);
    assert_eq!(r.tx_count, 3);
    assert_eq!(r.received_at.secs(), 100);
    assert_eq!(r.simulation_started_at.secs(), 101);
    assert_eq!(r.simulation_completed_at.subsec_nanos(), 500_000_000);
    assert_eq!(r.queue_wait_us, 1_000_000);
    assert_eq!(r.simulation_duration_us, 500_123);
}

#[test]
fn accepted_bundle_keeps_its_fields() {
    let b = AcceptedBundle::new("0xabc".to_string(), -1, 9, t(7, 8));
    assert_eq!(b.bundle_hash(), "0xabc");
    assert_eq!(b.target_block(), -1);
    assert_eq!(b.tx_count(), 9);
    assert_eq!(b.received_at().secs(), 7);
    assert_eq!(b.received_at().subsec_nanos(), 8);
}

#[test]
fn processor_steps() {
    let b = || AcceptedBundle::new("0x1".to_string(), 1, 1, t(0, 0));
    assert!(matches!(
        processor_step(PipelineMessage::BundleAccepted(b()), true),
        ProcessorStep::SimulateAndStore(_)
    ));
    assert!(matches!(processor_step(PipelineMessage::BundleAccepted(b()), false), ProcessorStep::Store(_)));
    assert!(matches!(processor_step(PipelineMessage::Shutdown, true), ProcessorStep::Stop));
    assert!(matches!(processor_step(PipelineMessage::Shutdown, false), ProcessorStep::Stop));
}

#[test]
fn processor_timings_measure_the_queue_wait() {
    let b = AcceptedBundle::new("0x1".to_string(), 1, 1, t(10, 0));
    let tm = simulation_timings(&b, t(10, 3_000), t(11, 0), 77);
    assert_eq!(tm.queue_wait_us, 3);
    assert_eq!(tm.simulation_duration_us, 77);
    assert_eq!(tm.simulation_started_at.subsec_nanos(), 3_000);
    assert_eq!(tm.simulation_completed_at.secs(), 11);
}

#[test]
fn ingest_error_message() {
    assert_eq!(IngestError::ChannelClosed.message(), "ingest channel closed");
}


#[test]
fn stored_rows_count_as_processed_and_failures_as_failed() {
    let mut m = BundleMetrics::default();
    assert!(settle_storage(StoreOutcome::Stored, &mut m));
    assert!(!settle_storage(StoreOutcome::Failed, &mut m));
    assert_eq!(m.snapshot_processed(), 1);
    assert_eq!(m.snapshot_failed(), 1);
    assert_eq!(m.snapshot_accepted(), 0);
    assert_eq!(m.snapshot_rejected(), 0);
}

#[test]
fn processed_and_failed_add_up_to_the_rows_written() {
    let mut m = BundleMetrics::default();
    let run = [
        StoreOutcome::Stored,
        StoreOutcome::Stored,
        StoreOutcome::Failed,
        StoreOutcome::Stored,
        StoreOutcome::Failed,
    ];
    let rows = run.len() as u64;
    for o in run {
        settle_storage(o, &mut m);
    }
    assert_eq!(m.snapshot_processed(), 3);
    assert_eq!(m.snapshot_failed(), 2);
    assert_eq!(m.snapshot_processed() + m.snapshot_failed(), rows);
}
