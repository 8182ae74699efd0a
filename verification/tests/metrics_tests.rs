use btl::metrics::app_metrics::{bundle_const_labels, AppMetric, MetricKind};
use btl::metrics::bundle_metrics::BundleMetrics;

#[test]
fn bundle_metrics_start_at_zero() {
    let m = BundleMetrics::default();
    assert_eq!(m.snapshot_accepted(), 0);
    assert_eq!(m.snapshot_rejected(), 0);
    assert_eq!(m.snapshot_processed(), 0);
    assert_eq!(m.snapshot_failed(), 0);
}

#[test]
fn each_record_moves_its_own_counter() {
    let mut m = BundleMetrics::default();
    m.record_accepted();
    m.record_accepted();
    m.record_rejected();
    m.record_processed();
    m.record_processed();
    m.record_processed();
    m.record_failed();
    assert_eq!(m.snapshot_accepted(), 2);
    assert_eq!(m.snapshot_rejected(), 1);
    assert_eq!(m.snapshot_processed(), 3);
    assert_eq!(m.snapshot_failed(), 1);
}

const ALL: [AppMetric; 15] = [
    AppMetric::BundlesReceivedTotal,
    AppMetric::BundlesAcceptedTotal,
    AppMetric::BundlesRejectedTotal,
    AppMetric::BundlesSimulationStartedTotal,
    AppMetric::BundlesProcessedTotal,
    AppMetric::BundlesFailedTotal,
    AppMetric::SimulationQueueDepth,
    AppMetric::SimulationQueueCapacity,
    AppMetric::SimulationInFlight,
    AppMetric::ResultQueueDepth,
    AppMetric::QueueWaitSeconds,
    AppMetric::SimulationDurationSeconds,
    AppMetric::BundleEndToEndSeconds,
    AppMetric::HttpResponseDurationSeconds,
    AppMetric::DbWriteDurationSeconds,
];

#[test]
fn metric_names_are_distinct_and_valid() {
    for (i, a) in ALL.iter().enumerate() {
        let name = a.name();
        assert!(!a.help().is_empty());
        let first = name.chars().next().unwrap();
        assert!(first.is_ascii_alphabetic() || first == '_' || first == ':');
        assert!(name.chars().all(|c| c.is_ascii_alphanumeric() || c == '_' || c == ':'));
        for b in ALL.iter().skip(i + 1) {
            assert_ne!(name, b.name());
        }
    }
}

#[test]
fn metric_catalogue_entries() {
    assert_eq!(AppMetric::BundlesReceivedTotal.name(), "bundles_received_total");
    assert_eq!(AppMetric::BundlesReceivedTotal.help(), "valid bundle jobs before admission");
    assert!(matches!(AppMetric::BundlesReceivedTotal.kind(), MetricKind::Counter));
    assert_eq!(AppMetric::SimulationInFlight.name(), "simulation_in_flight");
    assert!(matches!(AppMetric::SimulationInFlight.kind(), MetricKind::Gauge));
    assert_eq!(AppMetric::DbWriteDurationSeconds.help(), "single bundle INSERT duration");
    assert!(matches!(AppMetric::DbWriteDurationSeconds.kind(), MetricKind::Histogram));
}

#[test]
fn const_labels_carry_source_and_mode() {
    let labels = bundle_const_labels("reject");
    assert_eq!(labels.len(), 2);
    assert_eq!(labels[0], ("source", "bundle".to_string()));
    assert_eq!(labels[1], ("mode", "reject".to_string()));
}

#[test]
fn each_counter_counts_only_its_own_calls() {
    let mut m = BundleMetrics::default();
    let before = m.snapshot_rejected();
    for i in 0..50u32 {
        match i % 4 {
            0 => m.record_accepted(),
            1 => m.record_rejected(),
            2 => m.record_processed(),
            _ => m.record_failed(),
        }
        let _ = m.snapshot_accepted();
    }
    assert_eq!(m.snapshot_rejected() - before, 13);
    assert_eq!(m.snapshot_accepted(), 13);
    assert_eq!(m.snapshot_processed(), 12);
    assert_eq!(m.snapshot_failed(), 12);
}

#[test]
fn catalogue_order_positions_and_handle_indices() {
    let all = AppMetric::all();
    assert_eq!(all.len(), 15);
    for (i, m) in all.iter().enumerate() {
        assert_eq!(m.position(), i);
        let same_kind_before = all[..i]
            .iter()
            .filter(|x| std::mem::discriminant(&x.kind()) == std::mem::discriminant(&m.kind()))
            .count();
        assert_eq!(m.handle_index(), same_kind_before);
    }
}

#[test]
fn new_registers_the_catalogue_with_its_kinds_and_labels() {
    let registered = match btl::metrics::app_metrics::AppMetrics::new("wait") {
        Ok(r) => r,
        Err(_) => panic!("registration refused"),
    };
    assert_eq!(registered.counters.len(), 6);
    assert_eq!(registered.gauges.len(), 4);
    assert_eq!(registered.histograms.len(), 5);
    registered.counters[AppMetric::BundlesFailedTotal.handle_index()].inc_by(3);
    registered.gauges[AppMetric::SimulationQueueCapacity.handle_index()].set(64);
    registered.histograms[AppMetric::QueueWaitSeconds.handle_index()].observe(0.5);
    let families = registered.registry.gather();
    assert_eq!(families.len(), 15);
    for m in AppMetric::all() {
        let f = families.iter().find(|f| f.get_name() == m.name()).expect("registered");
        assert_eq!(f.get_help(), m.help());
        let labels = f.get_metric()[0].get_label();
        let pairs: Vec<(String, String)> =
            labels.iter().map(|l| (l.get_name().to_string(), l.get_value().to_string())).collect();
        assert!(pairs.contains(&("source".to_string(), "bundle".to_string())));
        assert!(pairs.contains(&("mode".to_string(), "wait".to_string())));
        assert_eq!(pairs.len(), 2);
    }
    let failed = families.iter().find(|f| f.get_name() == "bundles_failed_total").unwrap();
    assert_eq!(failed.get_metric()[0].get_counter().get_value(), 3.0);
    let cap = families.iter().find(|f| f.get_name() == "simulation_queue_capacity").unwrap();
    assert_eq!(cap.get_metric()[0].get_gauge().get_value(), 64.0);
}
