//! Sources and registry phase metrics: requests, registry loads and cadence checks.
use super::{
    label_set1, label_set2, label_set3, labeled_counter_op, labeled_duration_op, labeled_histogram_op,
    counter_op, doc_view, duration_op, gauge_op, histogram_op, labels0, labels1, labels2, labels3, metric_doc, op_is_duration, op_labels, op_view,
    phase_metric, phase_metric_name, registration, registration_view, MetricDoc, MetricDocView, MetricOp,
    MetricRegistration, MetricType, PhaseMetrics,
};
use vstd::prelude::*;

verus! {
/// Metrics of the sources and registry phase.
pub struct SourcesMetrics;

/// Result of a cadence check.
pub enum CadenceResult {
    Allowed,
    Skipped,
    Bypassed,
}

/// The `result` label of a cadence check: `allowed`, `skipped` or `bypassed`.
pub open spec fn cadence_label(r: CadenceResult) -> Seq<char> {
    match r {
        CadenceResult::Allowed => "allowed"@,
        CadenceResult::Skipped => "skipped"@,
        CadenceResult::Bypassed => "bypassed"@,
    }
}

impl CadenceResult {
    /// The `result` label of the check.
    pub fn label(&self) -> (r: &'static str)
        ensures
            r@ == cadence_label(*self),
    {
        match self {
            CadenceResult::Allowed => "allowed",
            CadenceResult::Skipped => "skipped",
            CadenceResult::Bypassed => "bypassed",
        }
    }
}

impl SourcesMetrics {
    /// The updates for a successful source request taking `duration_nanos` nanoseconds and returning `payload_bytes` bytes.
    pub fn record_request_success(source_id: &str, duration_nanos: u64, payload_bytes: usize) -> (r: Vec<MetricOp>)
        ensures
            r@.len() == 3,
            !op_is_duration(r@[0]) && op_view(r@[0]) == (MetricType::Counter, phase_metric_name(MetricType::Counter, "sources"@, "requests_success"@), 1u64),
            op_labels(r@[0]) == seq![("source_id"@, source_id@)],
            op_is_duration(r@[1]) && op_view(r@[1]) == (MetricType::Histogram, phase_metric_name(MetricType::Histogram, "sources"@, "request_duration_seconds"@), duration_nanos),
            op_labels(r@[1]) == seq![("source_id"@, source_id@)],
            !op_is_duration(r@[2]) && op_view(r@[2]) == (MetricType::Histogram, phase_metric_name(MetricType::Histogram, "sources"@, "payload_bytes"@), payload_bytes as u64),
            op_labels(r@[2]) == seq![("source_id"@, source_id@)],
    {
        let mut r: Vec<MetricOp> = Vec::new();
        r.push(labeled_counter_op(phase_metric(MetricType::Counter, "sources", "requests_success"), label_set1("source_id", source_id), 1));
        r.push(labeled_duration_op(phase_metric(MetricType::Histogram, "sources", "request_duration_seconds"), label_set1("source_id", source_id), duration_nanos));
        r.push(labeled_histogram_op(phase_metric(MetricType::Histogram, "sources", "payload_bytes"), label_set1("source_id", source_id), payload_bytes as u64));
        r
    }

    /// The update for a source request taking `duration_nanos` nanoseconds.
    pub fn record_request_duration(source_id: &str, duration_nanos: u64) -> (r: MetricOp)
        ensures
            op_is_duration(r) && op_view(r) == (MetricType::Histogram, phase_metric_name(MetricType::Histogram, "sources"@, "request_duration_seconds"@), duration_nanos),
            op_labels(r) == seq![("source_id"@, source_id@)],
    {
        labeled_duration_op(phase_metric(MetricType::Histogram, "sources", "request_duration_seconds"), label_set1("source_id", source_id), duration_nanos)
    }

    /// The update for a failed source request.
    pub fn record_request_error(source_id: &str, error_type: &str) -> (r: MetricOp)
        ensures
            !op_is_duration(r) && op_view(r) == (MetricType::Counter, phase_metric_name(MetricType::Counter, "sources"@, "requests_error"@), 1u64),
            op_labels(r) == seq![("source_id"@, source_id@), ("error_type"@, error_type@)],
    {
        labeled_counter_op(phase_metric(MetricType::Counter, "sources", "requests_error"), label_set2("source_id", source_id, "error_type", error_type), 1)
    }

    /// The update for a successful registry load.
    pub fn record_registry_load_success(source_id: &str) -> (r: MetricOp)
        ensures
            !op_is_duration(r) && op_view(r) == (MetricType::Counter, phase_metric_name(MetricType::Counter, "sources"@, "registry_loads_success"@), 1u64),
            op_labels(r) == seq![("source_id"@, source_id@)],
    {
        labeled_counter_op(phase_metric(MetricType::Counter, "sources", "registry_loads_success"), label_set1("source_id", source_id), 1)
    }

    /// The update for a failed registry load.
    pub fn record_registry_load_error(source_id: &str, error_type: &str) -> (r: MetricOp)
        ensures
            !op_is_duration(r) && op_view(r) == (MetricType::Counter, phase_metric_name(MetricType::Counter, "sources"@, "registry_loads_error"@), 1u64),
            op_labels(r) == seq![("source_id"@, source_id@), ("error_type"@, error_type@)],
    {
        labeled_counter_op(phase_metric(MetricType::Counter, "sources", "registry_loads_error"), label_set2("source_id", source_id, "error_type", error_type), 1)
    }

    /// The update for a cadence check with its result.
    pub fn record_cadence_check(source_id: &str, result: CadenceResult) -> (r: MetricOp)
        ensures
            !op_is_duration(r) && op_view(r) == (MetricType::Counter, phase_metric_name(MetricType::Counter, "sources"@, "cadence_checks"@), 1u64),
            op_labels(r) == seq![("source_id"@, source_id@), ("result"@, cadence_label(result))],
    {
        labeled_counter_op(phase_metric(MetricType::Counter, "sources", "cadence_checks"), label_set2("source_id", source_id, "result", result.label()), 1)
    }

}

/// The documentation of the sources metrics.
pub open spec fn sources_documentation() -> Seq<MetricDocView> {
    let p = "sources"@;
    seq![
        doc_view(MetricType::Counter, p, "requests_success"@, "Total number of successful requests to data sources"@, seq!["source_id"@]),
        doc_view(MetricType::Counter, p, "requests_error"@, "Total number of failed requests to data sources"@, seq!["source_id"@, "error_type"@]),
        doc_view(MetricType::Counter, p, "registry_loads_success"@, "Total number of successful registry loads"@, seq!["source_id"@]),
        doc_view(MetricType::Counter, p, "registry_loads_error"@, "Total number of failed registry loads"@, seq!["source_id"@, "error_type"@]),
        doc_view(MetricType::Counter, p, "cadence_checks"@, "Total number of cadence checks performed"@, seq!["source_id"@, "result"@]),
        doc_view(MetricType::Histogram, p, "request_duration_seconds"@, "Duration of requests to data sources in seconds"@, seq!["source_id"@]),
        doc_view(MetricType::Histogram, p, "payload_bytes"@, "Size of payloads received from data sources in bytes"@, seq!["source_id"@]),
    ]
}

/// The kinds and names of the registered sources metrics.
pub open spec fn sources_registrations() -> Seq<(MetricType, Seq<char>)> {
    let p = "sources"@;
    seq![
        (MetricType::Counter, phase_metric_name(MetricType::Counter, p, "requests_success"@)),
        (MetricType::Counter, phase_metric_name(MetricType::Counter, p, "requests_error"@)),
        (MetricType::Counter, phase_metric_name(MetricType::Counter, p, "registry_loads_success"@)),
        (MetricType::Counter, phase_metric_name(MetricType::Counter, p, "registry_loads_error"@)),
        (MetricType::Counter, phase_metric_name(MetricType::Counter, p, "cadence_checks"@)),
        (MetricType::Histogram, phase_metric_name(MetricType::Histogram, p, "request_duration_seconds"@)),
        (MetricType::Histogram, phase_metric_name(MetricType::Histogram, p, "payload_bytes"@)),
    ]
}

impl PhaseMetrics for SourcesMetrics {
    open spec fn spec_phase() -> Seq<char> {
        "sources"@
    }

    open spec fn spec_documentation() -> Seq<MetricDocView> {
        sources_documentation()
    }

    open spec fn spec_registrations() -> Seq<(MetricType, Seq<char>)> {
        sources_registrations()
    }

    fn register_metrics() -> (r: Vec<MetricRegistration>) {
        let p = "sources";
        let mut r: Vec<MetricRegistration> = Vec::new();
        r.push(registration(MetricType::Counter, p, "requests_success", None));
        r.push(registration(MetricType::Counter, p, "requests_error", None));
        r.push(registration(MetricType::Counter, p, "registry_loads_success", None));
        r.push(registration(MetricType::Counter, p, "registry_loads_error", None));
        r.push(registration(MetricType::Counter, p, "cadence_checks", None));
        r.push(registration(MetricType::Histogram, p, "request_duration_seconds", None));
        r.push(registration(MetricType::Histogram, p, "payload_bytes", None));
        assert(r@.map_values(|x: MetricRegistration| registration_view(x)) =~= sources_registrations());
        r
    }

    fn phase_name() -> (r: &'static str) {
        "sources"
    }

    fn metrics_documentation() -> (r: Vec<MetricDoc>) {
        let p = "sources";
        let mut r: Vec<MetricDoc> = Vec::new();
        r.push(metric_doc(MetricType::Counter, p, "requests_success", "Total number of successful requests to data sources", labels1("source_id")));
        r.push(metric_doc(MetricType::Counter, p, "requests_error", "Total number of failed requests to data sources", labels2("source_id", "error_type")));
        r.push(metric_doc(MetricType::Counter, p, "registry_loads_success", "Total number of successful registry loads", labels1("source_id")));
        r.push(metric_doc(MetricType::Counter, p, "registry_loads_error", "Total number of failed registry loads", labels2("source_id", "error_type")));
        r.push(metric_doc(MetricType::Counter, p, "cadence_checks", "Total number of cadence checks performed", labels2("source_id", "result")));
        r.push(metric_doc(MetricType::Histogram, p, "request_duration_seconds", "Duration of requests to data sources in seconds", labels1("source_id")));
        r.push(metric_doc(MetricType::Histogram, p, "payload_bytes", "Size of payloads received from data sources in bytes", labels1("source_id")));
        assert(r@.map_values(|d: MetricDoc| d@) =~~= sources_documentation());
        r
    }
}

/// The sources phase registers exactly the metrics it documents: the same
/// kinds and names, in the same order.
pub proof fn lemma_sources_registers_documented()
    ensures
        sources_registrations() == sources_documentation().map_values(|d: MetricDocView| (d.metric_type, d.name)),
{
    assert(sources_registrations() =~= sources_documentation().map_values(|d: MetricDocView| (d.metric_type, d.name)));
}

} // verus!
