//! The Prometheus metrics the lab exports: their names, help texts and
//! kinds, and the labels every one of them carries.
use prometheus::{Histogram, HistogramOpts, IntCounter, IntGauge, Opts, Registry};
use vstd::prelude::*;

verus! {

/// The kind of a Prometheus metric.
#[derive(Clone, Copy, Debug)]
pub enum MetricKind {
    Counter,
    Gauge,
    Histogram,
}

/// The metrics of the lab, in the order they are registered.
#[derive(Clone, Copy, Debug)]
pub enum AppMetric {
    BundlesReceivedTotal,
    BundlesAcceptedTotal,
    BundlesRejectedTotal,
    BundlesSimulationStartedTotal,
    BundlesProcessedTotal,
    BundlesFailedTotal,
    SimulationQueueDepth,
    SimulationQueueCapacity,
    SimulationInFlight,
    ResultQueueDepth,
    QueueWaitSeconds,
    SimulationDurationSeconds,
    BundleEndToEndSeconds,
    HttpResponseDurationSeconds,
    DbWriteDurationSeconds,
}

impl AppMetric {
    pub open spec fn spec_name(self) -> Seq<char> {
        match self {
            AppMetric::BundlesReceivedTotal => "bundles_received_total"@,
            AppMetric::BundlesAcceptedTotal => "bundles_accepted_total"@,
            AppMetric::BundlesRejectedTotal => "bundles_rejected_total"@,
            AppMetric::BundlesSimulationStartedTotal => "bundles_simulation_started_total"@,
            AppMetric::BundlesProcessedTotal => "bundles_processed_total"@,
            AppMetric::BundlesFailedTotal => "bundles_failed_total"@,
            AppMetric::SimulationQueueDepth => "simulation_queue_depth"@,
            AppMetric::SimulationQueueCapacity => "simulation_queue_capacity"@,
            AppMetric::SimulationInFlight => "simulation_in_flight"@,
            AppMetric::ResultQueueDepth => "result_queue_depth"@,
            AppMetric::QueueWaitSeconds => "queue_wait_seconds"@,
            AppMetric::SimulationDurationSeconds => "simulation_duration_seconds"@,
            AppMetric::BundleEndToEndSeconds => "bundle_end_to_end_seconds"@,
            AppMetric::HttpResponseDurationSeconds => "http_response_duration_seconds"@,
            AppMetric::DbWriteDurationSeconds => "db_write_duration_seconds"@,
        }
    }

    pub open spec fn spec_help(self) -> Seq<char> {
        match self {
            AppMetric::BundlesReceivedTotal => "valid bundle jobs before admission"@,
            AppMetric::BundlesAcceptedTotal => "jobs accepted into simulation queue"@,
            AppMetric::BundlesRejectedTotal => "jobs rejected (queue full)"@,
            AppMetric::BundlesSimulationStartedTotal => "simulation worker started processing a job"@,
            AppMetric::BundlesProcessedTotal => "successful bundle result storage"@,
            AppMetric::BundlesFailedTotal => "infrastructure storage failure"@,
            AppMetric::SimulationQueueDepth => "simulation queue depth"@,
            AppMetric::SimulationQueueCapacity => "simulation queue capacity"@,
            AppMetric::SimulationInFlight => "simulations currently running"@,
            AppMetric::ResultQueueDepth => "result channel depth"@,
            AppMetric::QueueWaitSeconds => "time from job receive to simulation start"@,
            AppMetric::SimulationDurationSeconds => "mock simulation work duration"@,
            AppMetric::BundleEndToEndSeconds => "received_at to successful storage"@,
            AppMetric::HttpResponseDurationSeconds => "eth_sendBundle handler duration"@,
            AppMetric::DbWriteDurationSeconds => "single bundle INSERT duration"@,
        }
    }

    pub open spec fn spec_kind(self) -> MetricKind {
        match self {
            AppMetric::BundlesReceivedTotal => MetricKind::Counter,
            AppMetric::BundlesAcceptedTotal => MetricKind::Counter,
            AppMetric::BundlesRejectedTotal => MetricKind::Counter,
            AppMetric::BundlesSimulationStartedTotal => MetricKind::Counter,
            AppMetric::BundlesProcessedTotal => MetricKind::Counter,
            AppMetric::BundlesFailedTotal => MetricKind::Counter,
            AppMetric::SimulationQueueDepth => MetricKind::Gauge,
            AppMetric::SimulationQueueCapacity => MetricKind::Gauge,
            AppMetric::SimulationInFlight => MetricKind::Gauge,
            AppMetric::ResultQueueDepth => MetricKind::Gauge,
            AppMetric::QueueWaitSeconds => MetricKind::Histogram,
            AppMetric::SimulationDurationSeconds => MetricKind::Histogram,
            AppMetric::BundleEndToEndSeconds => MetricKind::Histogram,
            AppMetric::HttpResponseDurationSeconds => MetricKind::Histogram,
            AppMetric::DbWriteDurationSeconds => MetricKind::Histogram,
        }
    }

    /// The metric's name.
    pub fn name(&self) -> (r: &'static str)
        ensures
            r@ == self.spec_name(),
    {
        match self {
            AppMetric::BundlesReceivedTotal => "bundles_received_total",
            AppMetric::BundlesAcceptedTotal => "bundles_accepted_total",
            AppMetric::BundlesRejectedTotal => "bundles_rejected_total",
            AppMetric::BundlesSimulationStartedTotal => "bundles_simulation_started_total",
            AppMetric::BundlesProcessedTotal => "bundles_processed_total",
            AppMetric::BundlesFailedTotal => "bundles_failed_total",
            AppMetric::SimulationQueueDepth => "simulation_queue_depth",
            AppMetric::SimulationQueueCapacity => "simulation_queue_capacity",
            AppMetric::SimulationInFlight => "simulation_in_flight",
            AppMetric::ResultQueueDepth => "result_queue_depth",
            AppMetric::QueueWaitSeconds => "queue_wait_seconds",
            AppMetric::SimulationDurationSeconds => "simulation_duration_seconds",
            AppMetric::BundleEndToEndSeconds => "bundle_end_to_end_seconds",
            AppMetric::HttpResponseDurationSeconds => "http_response_duration_seconds",
            AppMetric::DbWriteDurationSeconds => "db_write_duration_seconds",
        }
    }

    /// The metric's help text.
    pub fn help(&self) -> (r: &'static str)
        ensures
            r@ == self.spec_help(),
    {
        match self {
            AppMetric::BundlesReceivedTotal => "valid bundle jobs before admission",
            AppMetric::BundlesAcceptedTotal => "jobs accepted into simulation queue",
            AppMetric::BundlesRejectedTotal => "jobs rejected (queue full)",
            AppMetric::BundlesSimulationStartedTotal => "simulation worker started processing a job",
            AppMetric::BundlesProcessedTotal => "successful bundle result storage",
            AppMetric::BundlesFailedTotal => "infrastructure storage failure",
            AppMetric::SimulationQueueDepth => "simulation queue depth",
            AppMetric::SimulationQueueCapacity => "simulation queue capacity",
            AppMetric::SimulationInFlight => "simulations currently running",
            AppMetric::ResultQueueDepth => "result channel depth",
            AppMetric::QueueWaitSeconds => "time from job receive to simulation start",
            AppMetric::SimulationDurationSeconds => "mock simulation work duration",
            AppMetric::BundleEndToEndSeconds => "received_at to successful storage",
            AppMetric::HttpResponseDurationSeconds => "eth_sendBundle handler duration",
            AppMetric::DbWriteDurationSeconds => "single bundle INSERT duration",
        }
    }

    /// The metric's kind.
    pub fn kind(&self) -> (r: MetricKind)
        ensures
            r == self.spec_kind(),
            (r is Counter) <==> has_suffix(self.spec_name(), "_total"@),
            (r is Histogram) <==> has_suffix(self.spec_name(), "_seconds"@),
    {
        proof {
            lemma_kind_follows_name(*self);
        }
        match self {
            AppMetric::BundlesReceivedTotal => MetricKind::Counter,
            AppMetric::BundlesAcceptedTotal => MetricKind::Counter,
            AppMetric::BundlesRejectedTotal => MetricKind::Counter,
            AppMetric::BundlesSimulationStartedTotal => MetricKind::Counter,
            AppMetric::BundlesProcessedTotal => MetricKind::Counter,
            AppMetric::BundlesFailedTotal => MetricKind::Counter,
            AppMetric::SimulationQueueDepth => MetricKind::Gauge,
            AppMetric::SimulationQueueCapacity => MetricKind::Gauge,
            AppMetric::SimulationInFlight => MetricKind::Gauge,
            AppMetric::ResultQueueDepth => MetricKind::Gauge,
            AppMetric::QueueWaitSeconds => MetricKind::Histogram,
            AppMetric::SimulationDurationSeconds => MetricKind::Histogram,
            AppMetric::BundleEndToEndSeconds => MetricKind::Histogram,
            AppMetric::HttpResponseDurationSeconds => MetricKind::Histogram,
            AppMetric::DbWriteDurationSeconds => MetricKind::Histogram,
        }
    }
}

/// `s` ends with `suffix`.
pub open spec fn has_suffix(s: Seq<char>, suffix: Seq<char>) -> bool {
    s.len() >= suffix.len() && s.subrange(s.len() - suffix.len(), s.len() as int) == suffix
}

/// `s` does not end with `suffix`, as its last character shows.
proof fn lemma_last_char_rules_out_suffix(s: Seq<char>, suffix: Seq<char>)
    requires
        s.len() > 0,
        suffix.len() > 0,
        s[s.len() - 1] != suffix[suffix.len() - 1],
    ensures
        !has_suffix(s, suffix),
{
    if has_suffix(s, suffix) {
        let tail = s.subrange(s.len() - suffix.len(), s.len() as int);
        assert(tail[suffix.len() - 1] == s[s.len() - 1]);
    }
}

/// A metric's kind follows from its role, which its name spells out: the
/// `*_total` metrics (bundles received, accepted, rejected, whose
/// simulation started, processed, failed) are counters, the `*_seconds`
/// metrics (queue wait, simulation, end to end, HTTP response, database
/// write) are histograms, and the others (queue depths, capacity, in
/// flight) are gauges.
pub proof fn lemma_kind_follows_name(m: AppMetric)
    ensures
        (m.spec_kind() is Counter) <==> has_suffix(m.spec_name(), "_total"@),
        (m.spec_kind() is Histogram) <==> has_suffix(m.spec_name(), "_seconds"@),
        (m.spec_kind() is Gauge) <==> !has_suffix(m.spec_name(), "_total"@) && !has_suffix(
            m.spec_name(),
            "_seconds"@,
        ),
{
    reveal_strlit("_total");
    reveal_strlit("_seconds");
    reveal_strlit("bundles_received_total");
    reveal_strlit("bundles_accepted_total");
    reveal_strlit("bundles_rejected_total");
    reveal_strlit("bundles_simulation_started_total");
    reveal_strlit("bundles_processed_total");
    reveal_strlit("bundles_failed_total");
    reveal_strlit("simulation_queue_depth");
    reveal_strlit("simulation_queue_capacity");
    reveal_strlit("simulation_in_flight");
    reveal_strlit("result_queue_depth");
    reveal_strlit("queue_wait_seconds");
    reveal_strlit("simulation_duration_seconds");
    reveal_strlit("bundle_end_to_end_seconds");
    reveal_strlit("http_response_duration_seconds");
    reveal_strlit("db_write_duration_seconds");
    let n = m.spec_name();
    let t = "_total"@;
    let sec = "_seconds"@;
    match m.spec_kind() {
        MetricKind::Counter => {
            assert(n.subrange(n.len() - 6, n.len() as int) =~= t);
            lemma_last_char_rules_out_suffix(n, sec);
        },
        MetricKind::Histogram => {
            assert(n.subrange(n.len() - 8, n.len() as int) =~= sec);
            lemma_last_char_rules_out_suffix(n, t);
        },
        MetricKind::Gauge => {
            lemma_last_char_rules_out_suffix(n, t);
            lemma_last_char_rules_out_suffix(n, sec);
        },
    }
}

/// A character Prometheus accepts at the start of a metric name
/// (`[a-zA-Z_:]`).
pub open spec fn metric_name_start(c: char) -> bool {
    ('a' <= c && c <= 'z') || ('A' <= c && c <= 'Z') || c == '_' || c == ':'
}

/// A character Prometheus accepts at the start of a label name
/// (`[a-zA-Z_]`).
pub open spec fn label_name_start(c: char) -> bool {
    ('a' <= c && c <= 'z') || ('A' <= c && c <= 'Z') || c == '_'
}

/// A valid metric name: `[a-zA-Z_:][a-zA-Z0-9_:]*`.
pub open spec fn is_valid_metric_name(s: Seq<char>) -> bool {
    &&& s.len() > 0
    &&& metric_name_start(s[0])
    &&& forall|i: int| 0 < i < s.len() ==> metric_name_start(#[trigger] s[i]) || ('0' <= s[i] && s[i] <= '9')
}

/// A valid label name: `[a-zA-Z_][a-zA-Z0-9_]*`.
pub open spec fn is_valid_label_name(s: Seq<char>) -> bool {
    &&& s.len() > 0
    &&& label_name_start(s[0])
    &&& forall|i: int| 0 < i < s.len() ==> label_name_start(#[trigger] s[i]) || ('0' <= s[i] && s[i] <= '9')
}

/// The constant labels of every metric: `source=bundle` and the policy's
/// `mode`.
pub fn bundle_const_labels(mode: &str) -> (labels: Vec<(&'static str, String)>)
    ensures
        labels@.len() == 2,
        labels@[0].0@ == "source"@,
        labels@[0].1@ == "bundle"@,
        labels@[1].0@ == "mode"@,
        labels@[1].1@ == mode@,
{
    let mut labels: Vec<(&'static str, String)> = Vec::new();
    labels.push(("source", "bundle".to_owned()));
    labels.push(("mode", mode.to_owned()));
    labels
}

/// Length and three characters of a name, enough to tell the names apart.
spec fn name_signature(s: Seq<char>) -> (int, char, char, char) {
    (s.len() as int, s[0], s[8], s[10])
}

spec fn expected_signature(m: AppMetric) -> (int, char, char, char) {
    match m {
        AppMetric::BundlesReceivedTotal => (22, 'b', 'r', 'c'),
        AppMetric::BundlesAcceptedTotal => (22, 'b', 'a', 'c'),
        AppMetric::BundlesRejectedTotal => (22, 'b', 'r', 'j'),
        AppMetric::BundlesSimulationStartedTotal => (32, 'b', 's', 'm'),
        AppMetric::BundlesProcessedTotal => (23, 'b', 'p', 'o'),
        AppMetric::BundlesFailedTotal => (20, 'b', 'f', 'i'),
        AppMetric::SimulationQueueDepth => (22, 's', 'o', '_'),
        AppMetric::SimulationQueueCapacity => (25, 's', 'o', '_'),
        AppMetric::SimulationInFlight => (20, 's', 'o', '_'),
        AppMetric::ResultQueueDepth => (18, 'r', 'u', 'u'),
        AppMetric::QueueWaitSeconds => (18, 'q', 'i', '_'),
        AppMetric::SimulationDurationSeconds => (27, 's', 'o', '_'),
        AppMetric::BundleEndToEndSeconds => (25, 'b', 'n', '_'),
        AppMetric::HttpResponseDurationSeconds => (30, 'h', 'p', 'n'),
        AppMetric::DbWriteDurationSeconds => (25, 'd', '_', 'u'),
    }
}

proof fn lemma_name_signature(m: AppMetric)
    ensures
        name_signature(m.spec_name()) == expected_signature(m),
{
    reveal_strlit("bundles_received_total");
    reveal_strlit("bundles_accepted_total");
    reveal_strlit("bundles_rejected_total");
    reveal_strlit("bundles_simulation_started_total");
    reveal_strlit("bundles_processed_total");
    reveal_strlit("bundles_failed_total");
    reveal_strlit("simulation_queue_depth");
    reveal_strlit("simulation_queue_capacity");
    reveal_strlit("simulation_in_flight");
    reveal_strlit("result_queue_depth");
    reveal_strlit("queue_wait_seconds");
    reveal_strlit("simulation_duration_seconds");
    reveal_strlit("bundle_end_to_end_seconds");
    reveal_strlit("http_response_duration_seconds");
    reveal_strlit("db_write_duration_seconds");
}

/// Every metric meets Prometheus's rules for a descriptor: a valid name and
/// a help text that is not empty; no two metrics share a name, so none of
/// them can clash with another in the registry; and the two constant labels
/// have valid, distinct names.
pub proof fn lemma_metric_catalogue(m: AppMetric, other: AppMetric)
    ensures
        is_valid_metric_name(m.spec_name()),
        m.spec_help().len() > 0,
        m != other ==> m.spec_name() != other.spec_name(),
        is_valid_label_name("source"@),
        is_valid_label_name("mode"@),
        "source"@ != "mode"@,
{
    reveal_strlit("bundles_received_total");
    reveal_strlit("bundles_accepted_total");
    reveal_strlit("bundles_rejected_total");
    reveal_strlit("bundles_simulation_started_total");
    reveal_strlit("bundles_processed_total");
    reveal_strlit("bundles_failed_total");
    reveal_strlit("simulation_queue_depth");
    reveal_strlit("simulation_queue_capacity");
    reveal_strlit("simulation_in_flight");
    reveal_strlit("result_queue_depth");
    reveal_strlit("queue_wait_seconds");
    reveal_strlit("simulation_duration_seconds");
    reveal_strlit("bundle_end_to_end_seconds");
    reveal_strlit("http_response_duration_seconds");
    reveal_strlit("db_write_duration_seconds");
    reveal_strlit("valid bundle jobs before admission");
    reveal_strlit("jobs accepted into simulation queue");
    reveal_strlit("jobs rejected (queue full)");
    reveal_strlit("simulation worker started processing a job");
    reveal_strlit("successful bundle result storage");
    reveal_strlit("infrastructure storage failure");
    reveal_strlit("simulation queue depth");
    reveal_strlit("simulation queue capacity");
    reveal_strlit("simulations currently running");
    reveal_strlit("result channel depth");
    reveal_strlit("time from job receive to simulation start");
    reveal_strlit("mock simulation work duration");
    reveal_strlit("received_at to successful storage");
    reveal_strlit("eth_sendBundle handler duration");
    reveal_strlit("single bundle INSERT duration");
    reveal_strlit("source");
    reveal_strlit("mode");
    lemma_name_signature(m);
    lemma_name_signature(other);
}


/// A metric as a Prometheus registry describes it: its name, help text,
/// kind and constant labels.
pub struct MetricDescriptor {
    pub name: Seq<char>,
    pub help: Seq<char>,
    pub kind: MetricKind,
    pub const_labels: Map<Seq<char>, Seq<char>>,
}

/// The constant labels `source=bundle` and `mode=<mode>`.
pub open spec fn bundle_label_map(mode: Seq<char>) -> Map<Seq<char>, Seq<char>> {
    Map::empty().insert("source"@, "bundle"@).insert("mode"@, mode)
}

/// How the lab registers a metric of its catalogue under a policy's mode.
pub open spec fn descriptor_of(m: AppMetric, mode: Seq<char>) -> MetricDescriptor {
    MetricDescriptor {
        name: m.spec_name(),
        help: m.spec_help(),
        kind: m.spec_kind(),
        const_labels: bundle_label_map(mode),
    }
}

/// Prometheus's error, carried as it is.
#[verifier::external_type_specification]
#[verifier::external_body]
pub struct ExPrometheusError(prometheus::Error);

/// A Prometheus registry and the handles through which the service updates
/// the collectors registered in it: `counters`, `gauges` and `histograms`
/// hold the handles of each kind in the order they were registered, so the
/// `k`-th collector of a kind that `registered_metrics` lists is the `k`-th
/// handle of its list.
#[verifier::external_body]
pub struct AppMetrics {
    pub registry: Registry,
    pub counters: Vec<IntCounter>,
    pub gauges: Vec<IntGauge>,
    pub histograms: Vec<Histogram>,
}

/// The descriptors of the collectors registered, in registration order
/// (all kinds together).
pub uninterp spec fn registered_metrics(r: AppMetrics) -> Seq<MetricDescriptor>;

/// `Registry::new`: an empty registry, no handle.
#[verifier::external_body]
fn registry_new() -> (r: AppMetrics)
    ensures
        registered_metrics(r) == Seq::<MetricDescriptor>::empty(),
{
    AppMetrics { registry: Registry::new(), counters: Vec::new(), gauges: Vec::new(), histograms: Vec::new() }
}

/// The constant labels as Prometheus stores them.
pub open spec fn label_pair_map(l0: (&'static str, String), l1: (&'static str, String)) -> Map<
    Seq<char>,
    Seq<char>,
> {
    Map::empty().insert(l0.0@, l0.1@).insert(l1.0@, l1.1@)
}

/// Creates `IntCounter::with_opts(Opts::new(name, help)` with the two
/// constant labels`)` and `Registry::register`s it (a clone of the handle,
/// which shares its value). When both succeed the registry holds one more
/// collector, described by exactly these. When either fails, and what a
/// failure leaves behind, is left unsaid.
#[verifier::external_body]
fn register_counter(
    r: &mut AppMetrics,
    name: &str,
    help: &str,
    l0: &(&'static str, String),
    l1: &(&'static str, String),
) -> (res: Result<(), prometheus::Error>)
    ensures
        res is Ok ==> registered_metrics(*final(r)) == registered_metrics(*old(r)).push(
            MetricDescriptor {
                name: name@,
                help: help@,
                kind: MetricKind::Counter,
                const_labels: label_pair_map(*l0, *l1),
            },
        ),
{
    let c = IntCounter::with_opts(
        Opts::new(name, help).const_label(l0.0, l0.1.as_str()).const_label(l1.0, l1.1.as_str()),
    )?;
    r.registry.register(Box::new(c.clone()))?;
    r.counters.push(c);
    Ok(())
}

/// As `register_counter`, for `IntGauge::with_opts`.
#[verifier::external_body]
fn register_gauge(
    r: &mut AppMetrics,
    name: &str,
    help: &str,
    l0: &(&'static str, String),
    l1: &(&'static str, String),
) -> (res: Result<(), prometheus::Error>)
    ensures
        res is Ok ==> registered_metrics(*final(r)) == registered_metrics(*old(r)).push(
            MetricDescriptor {
                name: name@,
                help: help@,
                kind: MetricKind::Gauge,
                const_labels: label_pair_map(*l0, *l1),
            },
        ),
{
    let g = IntGauge::with_opts(
        Opts::new(name, help).const_label(l0.0, l0.1.as_str()).const_label(l1.0, l1.1.as_str()),
    )?;
    r.registry.register(Box::new(g.clone()))?;
    r.gauges.push(g);
    Ok(())
}

/// As `register_counter`, for `Histogram::with_opts` on
/// `HistogramOpts::new(name, help)` (default buckets).
#[verifier::external_body]
fn register_histogram(
    r: &mut AppMetrics,
    name: &str,
    help: &str,
    l0: &(&'static str, String),
    l1: &(&'static str, String),
) -> (res: Result<(), prometheus::Error>)
    ensures
        res is Ok ==> registered_metrics(*final(r)) == registered_metrics(*old(r)).push(
            MetricDescriptor {
                name: name@,
                help: help@,
                kind: MetricKind::Histogram,
                const_labels: label_pair_map(*l0, *l1),
            },
        ),
{
    let h = Histogram::with_opts(
        HistogramOpts::new(name, help).const_label(l0.0, l0.1.as_str()).const_label(l1.0, l1.1.as_str()),
    )?;
    r.registry.register(Box::new(h.clone()))?;
    r.histograms.push(h);
    Ok(())
}

/// Setting up the metrics failed: Prometheus refused a collector.
pub enum MetricsSetupError {
    Rejected(prometheus::Error),
}

/// The catalogue, in registration order.
pub open spec fn catalogue() -> Seq<AppMetric> {
    seq![
        AppMetric::BundlesReceivedTotal,
        AppMetric::BundlesAcceptedTotal,
        AppMetric::BundlesRejectedTotal,
        AppMetric::BundlesSimulationStartedTotal,
        AppMetric::BundlesProcessedTotal,
        AppMetric::BundlesFailedTotal,
        AppMetric::SimulationQueueDepth,
        AppMetric::SimulationQueueCapacity,
        AppMetric::SimulationInFlight,
        AppMetric::ResultQueueDepth,
        AppMetric::QueueWaitSeconds,
        AppMetric::SimulationDurationSeconds,
        AppMetric::BundleEndToEndSeconds,
        AppMetric::HttpResponseDurationSeconds,
        AppMetric::DbWriteDurationSeconds,
    ]
}

/// The descriptors of the first `n` metrics of the catalogue.
pub open spec fn catalogue_descriptors(n: int, mode: Seq<char>) -> Seq<MetricDescriptor> {
    Seq::new(n as nat, |i: int| descriptor_of(catalogue()[i], mode))
}

impl AppMetric {
    /// Every metric of the catalogue, in registration order.
    pub fn all() -> (v: Vec<AppMetric>)
        ensures
            v@ == catalogue(),
    {
        vec![
            AppMetric::BundlesReceivedTotal,
            AppMetric::BundlesAcceptedTotal,
            AppMetric::BundlesRejectedTotal,
            AppMetric::BundlesSimulationStartedTotal,
            AppMetric::BundlesProcessedTotal,
            AppMetric::BundlesFailedTotal,
            AppMetric::SimulationQueueDepth,
            AppMetric::SimulationQueueCapacity,
            AppMetric::SimulationInFlight,
            AppMetric::ResultQueueDepth,
            AppMetric::QueueWaitSeconds,
            AppMetric::SimulationDurationSeconds,
            AppMetric::BundleEndToEndSeconds,
            AppMetric::HttpResponseDurationSeconds,
            AppMetric::DbWriteDurationSeconds,
        ]
    }

    /// The metric's place in the catalogue.
    pub fn position(&self) -> (i: usize)
        ensures
            i == self.position_spec(),
            i < 15,
            catalogue()[i as int] == *self,
    {
        match self {
            AppMetric::BundlesReceivedTotal => 0,
            AppMetric::BundlesAcceptedTotal => 1,
            AppMetric::BundlesRejectedTotal => 2,
            AppMetric::BundlesSimulationStartedTotal => 3,
            AppMetric::BundlesProcessedTotal => 4,
            AppMetric::BundlesFailedTotal => 5,
            AppMetric::SimulationQueueDepth => 6,
            AppMetric::SimulationQueueCapacity => 7,
            AppMetric::SimulationInFlight => 8,
            AppMetric::ResultQueueDepth => 9,
            AppMetric::QueueWaitSeconds => 10,
            AppMetric::SimulationDurationSeconds => 11,
            AppMetric::BundleEndToEndSeconds => 12,
            AppMetric::HttpResponseDurationSeconds => 13,
            AppMetric::DbWriteDurationSeconds => 14,
        }
    }
}

/// How many of the first `n` metrics of the catalogue are of kind `k`.
pub open spec fn kind_count_before(n: int, k: MetricKind) -> nat
    decreases n,
{
    if n <= 0 {
        0
    } else {
        kind_count_before(n - 1, k) + if catalogue()[n - 1].spec_kind() == k {
            1nat
        } else {
            0nat
        }
    }
}

impl AppMetric {
    /// The place of the metric's handle in the list of its kind
    /// (`AppMetrics::counters`, `gauges` or `histograms`): the number of
    /// metrics of its kind before it in the catalogue.
    pub fn handle_index(&self) -> (k: usize)
        ensures
            k == kind_count_before(self.position_spec(), self.spec_kind()),
    {
        proof {
            reveal_with_fuel(kind_count_before, 16);
        }
        match self {
            AppMetric::BundlesReceivedTotal => 0,
            AppMetric::BundlesAcceptedTotal => 1,
            AppMetric::BundlesRejectedTotal => 2,
            AppMetric::BundlesSimulationStartedTotal => 3,
            AppMetric::BundlesProcessedTotal => 4,
            AppMetric::BundlesFailedTotal => 5,
            AppMetric::SimulationQueueDepth => 0,
            AppMetric::SimulationQueueCapacity => 1,
            AppMetric::SimulationInFlight => 2,
            AppMetric::ResultQueueDepth => 3,
            AppMetric::QueueWaitSeconds => 0,
            AppMetric::SimulationDurationSeconds => 1,
            AppMetric::BundleEndToEndSeconds => 2,
            AppMetric::HttpResponseDurationSeconds => 3,
            AppMetric::DbWriteDurationSeconds => 4,
        }
    }

    /// The metric's place in the catalogue.
    pub open spec fn position_spec(self) -> int {
        match self {
            AppMetric::BundlesReceivedTotal => 0,
            AppMetric::BundlesAcceptedTotal => 1,
            AppMetric::BundlesRejectedTotal => 2,
            AppMetric::BundlesSimulationStartedTotal => 3,
            AppMetric::BundlesProcessedTotal => 4,
            AppMetric::BundlesFailedTotal => 5,
            AppMetric::SimulationQueueDepth => 6,
            AppMetric::SimulationQueueCapacity => 7,
            AppMetric::SimulationInFlight => 8,
            AppMetric::ResultQueueDepth => 9,
            AppMetric::QueueWaitSeconds => 10,
            AppMetric::SimulationDurationSeconds => 11,
            AppMetric::BundleEndToEndSeconds => 12,
            AppMetric::HttpResponseDurationSeconds => 13,
            AppMetric::DbWriteDurationSeconds => 14,
        }
    }
}

impl AppMetrics {
    /// Registers every metric of the catalogue, in its order, each as a
    /// collector of its kind with the labels `source=bundle` and
    /// `mode=<mode>`. When Prometheus accepts them all, the registered
    /// metrics are exactly the catalogue's, so the handle of metric `m` is
    /// `handles[m.position()]`.
    pub fn new(mode: &str) -> (res: Result<AppMetrics, MetricsSetupError>)
        ensures
            res matches Ok(m) ==> registered_metrics(m) == catalogue_descriptors(15, mode@),
    {
        let mut r = registry_new();
        let metrics = AppMetric::all();
        let labels = bundle_const_labels(mode);
        let mut i: usize = 0;
        assert(registered_metrics(r) =~= catalogue_descriptors(0, mode@));
        while i < metrics.len()
            invariant
                metrics@ == catalogue(),
                i <= metrics@.len(),
                labels@.len() == 2,
                labels@[0].0@ == "source"@,
                labels@[0].1@ == "bundle"@,
                labels@[1].0@ == "mode"@,
                labels@[1].1@ == mode@,
                registered_metrics(r) == catalogue_descriptors(i as int, mode@),
            decreases metrics@.len() - i,
        {
            let m = metrics[i];
            let registered = match m.kind() {
                MetricKind::Counter => register_counter(&mut r, m.name(), m.help(), &labels[0], &labels[1]),
                MetricKind::Gauge => register_gauge(&mut r, m.name(), m.help(), &labels[0], &labels[1]),
                MetricKind::Histogram => register_histogram(
                    &mut r,
                    m.name(),
                    m.help(),
                    &labels[0],
                    &labels[1],
                ),
            };
            if let Err(e) = registered {
                return Err(MetricsSetupError::Rejected(e));
            }
            assert(registered_metrics(r) =~= catalogue_descriptors(i + 1, mode@));
            i = i + 1;
        }
        Ok(r)
    }
}

} // verus!
