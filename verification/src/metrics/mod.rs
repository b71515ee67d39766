//! Phase-organized pipeline metrics.
//!
//! Every metric name follows the convention `sms_{phase}_{name}` with a
//! `_total` suffix for counters.  The library computes names, documentation,
//! registrations and the metric updates each pipeline event stands for; the
//! binary hands those updates to the process-wide metrics recorder.

pub mod timing;
pub mod dashboard;
pub mod gateway;
pub mod grafana;
pub mod ingest_log;
pub mod parser;
pub mod registry;
pub mod sources;
pub mod system;

pub use gateway::GatewayMetrics;
pub use ingest_log::IngestLogMetrics;
pub use parser::ParserMetrics;
pub use sources::SourcesMetrics;
pub use system::{MetricsConfig, MetricsSystem};

use crate::text::owned;
use vstd::prelude::*;
use vstd::string::*;

verus! {

/// The kind of a metric.
#[derive(Debug, Clone, Copy, PartialEq, Eq, Structural)]
pub enum MetricType {
    Counter,
    Histogram,
    Gauge,
}

/// The name that the naming convention gives to metric `name` of `phase`.
pub open spec fn phase_metric_name(kind: MetricType, phase: Seq<char>, name: Seq<char>) -> Seq<char> {
    match kind {
        MetricType::Counter => "sms_"@ + phase + "_"@ + name + "_total"@,
        _ => "sms_"@ + phase + "_"@ + name,
    }
}

/// Builds the conventional name of metric `name` of `phase`.
pub fn phase_metric(kind: MetricType, phase: &str, name: &str) -> (r: String)
    ensures
        r@ == phase_metric_name(kind, phase@, name@),
{
    let r = owned("sms_").concat(phase).concat("_").concat(name);
    match kind {
        MetricType::Counter => r.concat("_total"),
        _ => r,
    }
}

/// Documentation for a single metric.
#[derive(Debug, Clone)]
pub struct MetricDoc {
    pub name: String,
    pub metric_type: MetricType,
    pub help: String,
    pub labels: Vec<String>,
}

/// The mathematical content of a [`MetricDoc`].
#[verifier::ext_equal]
pub struct MetricDocView {
    pub name: Seq<char>,
    pub metric_type: MetricType,
    pub help: Seq<char>,
    pub labels: Seq<Seq<char>>,
}

/// The views of a sequence of strings.
pub open spec fn views_of(v: Seq<String>) -> Seq<Seq<char>> {
    v.map_values(|s: String| s@)
}

impl View for MetricDoc {
    type V = MetricDocView;

    open spec fn view(&self) -> MetricDocView {
        MetricDocView {
            name: self.name@,
            metric_type: self.metric_type,
            help: self.help@,
            labels: views_of(self.labels@),
        }
    }
}

/// The documentation entry of metric `name` of `phase`.
pub open spec fn doc_view(
    kind: MetricType,
    phase: Seq<char>,
    name: Seq<char>,
    help: Seq<char>,
    labels: Seq<Seq<char>>,
) -> MetricDocView {
    MetricDocView { name: phase_metric_name(kind, phase, name), metric_type: kind, help, labels }
}

/// Owned label names: none.
pub fn labels0() -> (r: Vec<String>)
    ensures
        views_of(r@) == Seq::<Seq<char>>::empty(),
{
    let r: Vec<String> = Vec::new();
    assert(views_of(r@) =~= Seq::<Seq<char>>::empty());
    r
}

/// Owned label names: one.
pub fn labels1(a: &str) -> (r: Vec<String>)
    ensures
        views_of(r@) == seq![a@],
{
    let mut r: Vec<String> = Vec::new();
    r.push(owned(a));
    assert(views_of(r@) =~= seq![a@]);
    r
}

/// Owned label names: two.
pub fn labels2(a: &str, b: &str) -> (r: Vec<String>)
    ensures
        views_of(r@) == seq![a@, b@],
{
    let mut r: Vec<String> = Vec::new();
    r.push(owned(a));
    r.push(owned(b));
    assert(views_of(r@) =~= seq![a@, b@]);
    r
}

/// Owned label names: three.
pub fn labels3(a: &str, b: &str, c: &str) -> (r: Vec<String>)
    ensures
        views_of(r@) == seq![a@, b@, c@],
{
    let mut r: Vec<String> = Vec::new();
    r.push(owned(a));
    r.push(owned(b));
    r.push(owned(c));
    assert(views_of(r@) =~= seq![a@, b@, c@]);
    r
}

/// Builds the documentation entry of metric `name` of `phase`.
pub fn metric_doc(kind: MetricType, phase: &str, name: &str, help: &str, labels: Vec<String>) -> (r: MetricDoc)
    ensures
        r@ == doc_view(kind, phase@, name@, help@, views_of(labels@)),
{
    MetricDoc {
        name: phase_metric(kind, phase, name),
        metric_type: kind,
        help: owned(help),
        labels,
    }
}

/// One label attached to a metric update: key and value.
pub struct MetricLabel {
    pub key: String,
    pub value: String,
}

/// An update of the process-wide metrics recorder.
pub enum MetricOp {
    /// Increase counter `name` by `amount`.
    IncrementCounter { name: String, labels: Vec<MetricLabel>, amount: u64 },
    /// Set gauge `name` to `value`.
    SetGauge { name: String, value: u64 },
    /// Record `value` in histogram `name`.
    RecordHistogram { name: String, labels: Vec<MetricLabel>, value: u64 },
    /// Record a duration of `nanos` nanoseconds, in seconds, in histogram
    /// `name`.
    RecordDuration { name: String, labels: Vec<MetricLabel>, nanos: u64 },
}

/// The kind, name and amount of an update, for contracts.
pub open spec fn op_view(op: MetricOp) -> (MetricType, Seq<char>, u64) {
    match op {
        MetricOp::IncrementCounter { name, amount, .. } => (MetricType::Counter, name@, amount),
        MetricOp::SetGauge { name, value } => (MetricType::Gauge, name@, value),
        MetricOp::RecordHistogram { name, value, .. } => (MetricType::Histogram, name@, value),
        MetricOp::RecordDuration { name, nanos, .. } => (MetricType::Histogram, name@, nanos),
    }
}

/// The kind, name and amount of each update, in order.
pub open spec fn ops_view(ops: Seq<MetricOp>) -> Seq<(MetricType, Seq<char>, u64)> {
    ops.map_values(|o: MetricOp| op_view(o))
}

/// Whether an update records a duration, its amount in nanoseconds.
pub open spec fn op_is_duration(op: MetricOp) -> bool {
    op is RecordDuration
}

/// The labels of an update, as (key, value) views.
pub open spec fn op_labels(op: MetricOp) -> Seq<(Seq<char>, Seq<char>)> {
    match op {
        MetricOp::IncrementCounter { labels, .. } => labels@.map_values(|l: MetricLabel| (l.key@, l.value@)),
        MetricOp::SetGauge { .. } => Seq::empty(),
        MetricOp::RecordHistogram { labels, .. } => labels@.map_values(|l: MetricLabel| (l.key@, l.value@)),
        MetricOp::RecordDuration { labels, .. } => labels@.map_values(|l: MetricLabel| (l.key@, l.value@)),
    }
}

/// The counter and gauge values of the recorder after an update: a counter
/// series (name and labels) grows by the amount, from zero when new; a gauge
/// series is set to the value; a histogram sample leaves them as they are.
pub open spec fn apply_op(
    values: Map<(Seq<char>, Seq<(Seq<char>, Seq<char>)>), int>,
    op: MetricOp,
) -> Map<(Seq<char>, Seq<(Seq<char>, Seq<char>)>), int> {
    let (kind, name, amount) = op_view(op);
    let key = (name, op_labels(op));
    match kind {
        MetricType::Counter => values.insert(key, (if values.contains_key(key) { values[key] } else { 0 }) + amount),
        MetricType::Gauge => values.insert(key, amount as int),
        MetricType::Histogram => values,
    }
}

/// Increase counter `name` by `amount`, without labels.
pub fn counter_op(name: String, amount: u64) -> (r: MetricOp)
    ensures
        op_view(r) == (MetricType::Counter, name@, amount),
        op_labels(r).len() == 0,
{
    let r = MetricOp::IncrementCounter { name, labels: Vec::new(), amount };
    assert(op_labels(r) =~= Seq::empty());
    r
}

/// Set gauge `name` to `value`.
pub fn gauge_op(name: String, value: u64) -> (r: MetricOp)
    ensures
        op_view(r) == (MetricType::Gauge, name@, value),
        op_labels(r).len() == 0,
{
    MetricOp::SetGauge { name, value }
}

/// Record `value` in histogram `name`, without labels.
pub fn histogram_op(name: String, value: u64) -> (r: MetricOp)
    ensures
        !op_is_duration(r) && op_view(r) == (MetricType::Histogram, name@, value),
        op_labels(r).len() == 0,
{
    let r = MetricOp::RecordHistogram { name, labels: Vec::new(), value };
    assert(op_labels(r) =~= Seq::empty());
    r
}

/// Record a duration of `nanos` nanoseconds in histogram `name`.
pub fn duration_op(name: String, nanos: u64) -> (r: MetricOp)
    ensures
        op_view(r) == (MetricType::Histogram, name@, nanos),
        op_is_duration(r),
        op_labels(r).len() == 0,
{
    let r = MetricOp::RecordDuration { name, labels: Vec::new(), nanos };
    assert(op_labels(r) =~= Seq::empty());
    r
}

/// The label `key` = `value`.
pub fn metric_label(key: &str, value: &str) -> (r: MetricLabel)
    ensures
        r.key@ == key@,
        r.value@ == value@,
{
    MetricLabel { key: owned(key), value: owned(value) }
}

/// The (key, value) views of labels.
pub open spec fn label_pairs(ls: Seq<MetricLabel>) -> Seq<(Seq<char>, Seq<char>)> {
    ls.map_values(|l: MetricLabel| (l.key@, l.value@))
}

/// The labels `k` = `v`.
pub fn label_set1(k: &str, v: &str) -> (r: Vec<MetricLabel>)
    ensures
        label_pairs(r@) == seq![(k@, v@)],
{
    let mut r: Vec<MetricLabel> = Vec::new();
    r.push(metric_label(k, v));
    assert(label_pairs(r@) =~= seq![(k@, v@)]);
    r
}

/// The labels `k1` = `v1`, `k2` = `v2`.
pub fn label_set2(k1: &str, v1: &str, k2: &str, v2: &str) -> (r: Vec<MetricLabel>)
    ensures
        label_pairs(r@) == seq![(k1@, v1@), (k2@, v2@)],
{
    let mut r: Vec<MetricLabel> = Vec::new();
    r.push(metric_label(k1, v1));
    r.push(metric_label(k2, v2));
    assert(label_pairs(r@) =~= seq![(k1@, v1@), (k2@, v2@)]);
    r
}

/// The labels `k1` = `v1`, `k2` = `v2`, `k3` = `v3`.
pub fn label_set3(k1: &str, v1: &str, k2: &str, v2: &str, k3: &str, v3: &str) -> (r: Vec<MetricLabel>)
    ensures
        label_pairs(r@) == seq![(k1@, v1@), (k2@, v2@), (k3@, v3@)],
{
    let mut r: Vec<MetricLabel> = Vec::new();
    r.push(metric_label(k1, v1));
    r.push(metric_label(k2, v2));
    r.push(metric_label(k3, v3));
    assert(label_pairs(r@) =~= seq![(k1@, v1@), (k2@, v2@), (k3@, v3@)]);
    r
}

/// Increase counter `name` by `amount`, with labels.
pub fn labeled_counter_op(name: String, labels: Vec<MetricLabel>, amount: u64) -> (r: MetricOp)
    ensures
        op_view(r) == (MetricType::Counter, name@, amount),
        op_labels(r) == labels@.map_values(|l: MetricLabel| (l.key@, l.value@)),
{
    MetricOp::IncrementCounter { name, labels, amount }
}

/// Record `value` in histogram `name`, with labels.
pub fn labeled_histogram_op(name: String, labels: Vec<MetricLabel>, value: u64) -> (r: MetricOp)
    ensures
        !op_is_duration(r) && op_view(r) == (MetricType::Histogram, name@, value),
        op_labels(r) == labels@.map_values(|l: MetricLabel| (l.key@, l.value@)),
{
    MetricOp::RecordHistogram { name, labels, value }
}

/// Record a duration of `nanos` nanoseconds in histogram `name`, with labels.
pub fn labeled_duration_op(name: String, labels: Vec<MetricLabel>, nanos: u64) -> (r: MetricOp)
    ensures
        op_is_duration(r) && op_view(r) == (MetricType::Histogram, name@, nanos),
        op_labels(r) == labels@.map_values(|l: MetricLabel| (l.key@, l.value@)),
{
    MetricOp::RecordDuration { name, labels, nanos }
}

/// A metric to be registered with the recorder, with its description.
pub struct MetricRegistration {
    pub metric_type: MetricType,
    pub name: String,
    pub help: Option<String>,
}

/// The kind and name of a registration, for contracts.
pub open spec fn registration_view(r: MetricRegistration) -> (MetricType, Seq<char>) {
    (r.metric_type, r.name@)
}

/// Registration of metric `name` of `phase`, with an optional description.
pub fn registration(kind: MetricType, phase: &str, name: &str, help: Option<&str>) -> (r: MetricRegistration)
    ensures
        registration_view(r) == (kind, phase_metric_name(kind, phase@, name@)),
        r.help.is_some() == help.is_some(),
        help.is_some() ==> r.help.unwrap()@ == help.unwrap()@,
{
    let h = match help {
        Some(t) => Some(owned(t)),
        None => None,
    };
    MetricRegistration { metric_type: kind, name: phase_metric(kind, phase, name), help: h }
}

/// Per-phase metrics: registration, phase name and documentation.
pub trait PhaseMetrics {
    /// The phase name.
    spec fn spec_phase() -> Seq<char>;

    /// The documentation of every metric of the phase.
    spec fn spec_documentation() -> Seq<MetricDocView>;

    /// The kinds and names of the metrics registered for the phase.
    spec fn spec_registrations() -> Seq<(MetricType, Seq<char>)>;

    /// The registrations of all metrics of this phase.
    fn register_metrics() -> (r: Vec<MetricRegistration>)
        ensures
            r@.map_values(|x: MetricRegistration| registration_view(x)) == Self::spec_registrations(),
    ;

    /// The phase name that prefixes its metric names.
    fn phase_name() -> (r: &'static str)
        ensures
            r@ == Self::spec_phase(),
    ;

    /// Documentation for all metrics of this phase.
    fn metrics_documentation() -> (r: Vec<MetricDoc>)
        ensures
            r@.map_values(|d: MetricDoc| d@) == Self::spec_documentation(),
    ;
}

/// The heartbeat counter update that marks the start of a run.
pub fn bump_run_heartbeat() -> (r: MetricOp)
    ensures
        op_view(r) == (MetricType::Counter, "sms_runs_heartbeat_total"@, 1u64),
        op_labels(r).len() == 0,
{
    counter_op(owned("sms_runs_heartbeat_total"), 1)
}

} // verus!
