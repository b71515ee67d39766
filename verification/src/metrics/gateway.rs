//! Gateway phase metrics: envelope acceptance, deduplication and CAS writes.

use super::{
    label_set1, label_set2, label_set3, labeled_counter_op, labeled_duration_op, labeled_histogram_op,
    counter_op, doc_view, duration_op, histogram_op, metric_doc, op_is_duration, op_labels, op_view, phase_metric, phase_metric_name,
    registration, registration_view, labels1, labels2, labels3, MetricDoc, MetricDocView, MetricOp, MetricRegistration,
    MetricType, PhaseMetrics,
};
use vstd::prelude::*;

verus! {

/// Metrics of the ingestion gateway phase.
pub struct GatewayMetrics;

impl GatewayMetrics {
    /// The updates for an accepted envelope of `payload_bytes` bytes, processed in `duration_nanos` nanoseconds.
    pub fn record_envelope_accepted(source_id: &str, payload_bytes: usize, duration_nanos: u64) -> (r: Vec<MetricOp>)
        ensures
            r@.len() == 4,
            !op_is_duration(r@[0]) && op_view(r@[0]) == (MetricType::Counter, phase_metric_name(MetricType::Counter, "gateway"@, "envelopes_accepted"@), 1u64),
            op_labels(r@[0]) == seq![("source_id"@, source_id@)],
            !op_is_duration(r@[1]) && op_view(r@[1]) == (MetricType::Histogram, phase_metric_name(MetricType::Histogram, "gateway"@, "payload_bytes"@), payload_bytes as u64),
            op_labels(r@[1]) == seq![("source_id"@, source_id@)],
            op_is_duration(r@[2]) && op_view(r@[2]) == (MetricType::Histogram, phase_metric_name(MetricType::Histogram, "gateway"@, "processing_duration_seconds"@), duration_nanos),
            op_labels(r@[2]) == seq![("source_id"@, source_id@)],
            !op_is_duration(r@[3]) && op_view(r@[3]) == (MetricType::Counter, phase_metric_name(MetricType::Counter, "gateway"@, "records_ingested"@), 1u64),
            op_labels(r@[3]) == seq![("source_id"@, source_id@)],
    {
        let mut r: Vec<MetricOp> = Vec::new();
        r.push(labeled_counter_op(phase_metric(MetricType::Counter, "gateway", "envelopes_accepted"), label_set1("source_id", source_id), 1));
        r.push(labeled_histogram_op(phase_metric(MetricType::Histogram, "gateway", "payload_bytes"), label_set1("source_id", source_id), payload_bytes as u64));
        r.push(labeled_duration_op(phase_metric(MetricType::Histogram, "gateway", "processing_duration_seconds"), label_set1("source_id", source_id), duration_nanos));
        r.push(labeled_counter_op(phase_metric(MetricType::Counter, "gateway", "records_ingested"), label_set1("source_id", source_id), 1));
        r
    }

    /// The update for processing an envelope in `duration_nanos` nanoseconds.
    pub fn record_processing_duration(source_id: &str, duration_nanos: u64) -> (r: MetricOp)
        ensures
            op_is_duration(r) && op_view(r) == (MetricType::Histogram, phase_metric_name(MetricType::Histogram, "gateway"@, "processing_duration_seconds"@), duration_nanos),
            op_labels(r) == seq![("source_id"@, source_id@)],
    {
        labeled_duration_op(phase_metric(MetricType::Histogram, "gateway", "processing_duration_seconds"), label_set1("source_id", source_id), duration_nanos)
    }

    /// The update for a CAS operation taking `duration_nanos` nanoseconds.
    pub fn record_cas_operation_duration(storage_type: &str, duration_nanos: u64) -> (r: MetricOp)
        ensures
            op_is_duration(r) && op_view(r) == (MetricType::Histogram, phase_metric_name(MetricType::Histogram, "gateway"@, "cas_operation_duration_seconds"@), duration_nanos),
            op_labels(r) == seq![("storage_type"@, storage_type@)],
    {
        labeled_duration_op(phase_metric(MetricType::Histogram, "gateway", "cas_operation_duration_seconds"), label_set1("storage_type", storage_type), duration_nanos)
    }

    /// The update for a deduplicated envelope.
    pub fn record_envelope_deduplicated(source_id: &str) -> (r: MetricOp)
        ensures
            !op_is_duration(r) && op_view(r) == (MetricType::Counter, phase_metric_name(MetricType::Counter, "gateway"@, "envelopes_deduplicated"@), 1u64),
            op_labels(r) == seq![("source_id"@, source_id@)],
    {
        labeled_counter_op(phase_metric(MetricType::Counter, "gateway", "envelopes_deduplicated"), label_set1("source_id", source_id), 1)
    }

    /// The updates for a successful CAS write of `payload_bytes` bytes.
    pub fn record_cas_write_success(storage_type: &str, payload_bytes: usize) -> (r: Vec<MetricOp>)
        ensures
            r@.len() == 2,
            !op_is_duration(r@[0]) && op_view(r@[0]) == (MetricType::Counter, phase_metric_name(MetricType::Counter, "gateway"@, "cas_writes_success"@), 1u64),
            op_labels(r@[0]) == seq![("storage_type"@, storage_type@)],
            !op_is_duration(r@[1]) && op_view(r@[1]) == (MetricType::Histogram, phase_metric_name(MetricType::Histogram, "gateway"@, "cas_write_bytes"@), payload_bytes as u64),
            op_labels(r@[1]) == seq![("storage_type"@, storage_type@)],
    {
        let mut r: Vec<MetricOp> = Vec::new();
        r.push(labeled_counter_op(phase_metric(MetricType::Counter, "gateway", "cas_writes_success"), label_set1("storage_type", storage_type), 1));
        r.push(labeled_histogram_op(phase_metric(MetricType::Histogram, "gateway", "cas_write_bytes"), label_set1("storage_type", storage_type), payload_bytes as u64));
        r
    }

    /// The update for a failed CAS write.
    pub fn record_cas_write_error(storage_type: &str, error_type: &str) -> (r: MetricOp)
        ensures
            !op_is_duration(r) && op_view(r) == (MetricType::Counter, phase_metric_name(MetricType::Counter, "gateway"@, "cas_writes_error"@), 1u64),
            op_labels(r) == seq![("storage_type"@, storage_type@), ("error_type"@, error_type@)],
    {
        labeled_counter_op(phase_metric(MetricType::Counter, "gateway", "cas_writes_error"), label_set2("storage_type", storage_type, "error_type", error_type), 1)
    }
}

/// The documentation of the gateway metrics.
pub open spec fn gateway_documentation() -> Seq<MetricDocView> {
    let p = "gateway"@;
    seq![
        doc_view(MetricType::Counter, p, "envelopes_accepted"@, "Total number of envelopes accepted by the gateway"@, seq!["source_id"@]),
        doc_view(MetricType::Counter, p, "envelopes_deduplicated"@, "Total number of envelopes that were deduplicated"@, seq!["source_id"@]),
        doc_view(MetricType::Counter, p, "cas_writes_success"@, "Total number of successful CAS writes"@, seq!["storage_type"@]),
        doc_view(MetricType::Counter, p, "cas_writes_error"@, "Total number of failed CAS writes"@, seq!["storage_type"@, "error_type"@]),
        doc_view(MetricType::Counter, p, "policy_checks"@, "Total number of policy checks performed"@, seq!["source_id"@, "check_type"@, "result"@]),
        doc_view(MetricType::Counter, p, "records_ingested"@, "Total number of records ingested through the gateway (envelopes that will be parsed into records)"@, seq!["source_id"@]),
        doc_view(MetricType::Histogram, p, "payload_bytes"@, "Size of payloads processed by the gateway in bytes"@, seq!["source_id"@]),
        doc_view(MetricType::Histogram, p, "processing_duration_seconds"@, "Duration of envelope processing in the gateway in seconds"@, seq!["source_id"@]),
        doc_view(MetricType::Histogram, p, "cas_write_bytes"@, "Size of data written to CAS in bytes"@, seq!["storage_type"@]),
        doc_view(MetricType::Histogram, p, "cas_operation_duration_seconds"@, "Duration of CAS operations in seconds"@, seq!["storage_type"@]),
    ]
}

/// The kinds and names of the registered gateway metrics.
pub open spec fn gateway_registrations() -> Seq<(MetricType, Seq<char>)> {
    gateway_documentation().map_values(|d: MetricDocView| (d.metric_type, d.name))
}

impl PhaseMetrics for GatewayMetrics {
    open spec fn spec_phase() -> Seq<char> {
        "gateway"@
    }

    open spec fn spec_documentation() -> Seq<MetricDocView> {
        gateway_documentation()
    }

    open spec fn spec_registrations() -> Seq<(MetricType, Seq<char>)> {
        gateway_registrations()
    }

    fn register_metrics() -> (r: Vec<MetricRegistration>) {
        let p = "gateway";
        let mut r: Vec<MetricRegistration> = Vec::new();
        r.push(registration(MetricType::Counter, p, "envelopes_accepted", Some("Total number of envelopes accepted by the gateway")));
        r.push(registration(MetricType::Counter, p, "envelopes_deduplicated", Some("Total number of envelopes that were deduplicated")));
        r.push(registration(MetricType::Counter, p, "cas_writes_success", Some("Total number of successful CAS writes")));
        r.push(registration(MetricType::Counter, p, "cas_writes_error", Some("Total number of failed CAS writes")));
        r.push(registration(MetricType::Counter, p, "policy_checks", Some("Total number of policy checks performed")));
        r.push(registration(MetricType::Counter, p, "records_ingested", Some("Total number of records ingested through the gateway")));
        r.push(registration(MetricType::Histogram, p, "payload_bytes", Some("Size of payloads processed by the gateway in bytes")));
        r.push(registration(MetricType::Histogram, p, "processing_duration_seconds", Some("Duration of envelope processing in the gateway in seconds")));
        r.push(registration(MetricType::Histogram, p, "cas_write_bytes", Some("Size of data written to CAS in bytes")));
        r.push(registration(MetricType::Histogram, p, "cas_operation_duration_seconds", Some("Duration of CAS operations in seconds")));
        assert(r@.map_values(|x: MetricRegistration| registration_view(x)) =~= gateway_registrations());
        r
    }

    fn phase_name() -> (r: &'static str) {
        "gateway"
    }

    fn metrics_documentation() -> (r: Vec<MetricDoc>) {
        let p = "gateway";
        let mut r: Vec<MetricDoc> = Vec::new();
        r.push(metric_doc(MetricType::Counter, p, "envelopes_accepted", "Total number of envelopes accepted by the gateway", labels1("source_id")));
        r.push(metric_doc(MetricType::Counter, p, "envelopes_deduplicated", "Total number of envelopes that were deduplicated", labels1("source_id")));
        r.push(metric_doc(MetricType::Counter, p, "cas_writes_success", "Total number of successful CAS writes", labels1("storage_type")));
        r.push(metric_doc(MetricType::Counter, p, "cas_writes_error", "Total number of failed CAS writes", labels2("storage_type", "error_type")));
        r.push(metric_doc(MetricType::Counter, p, "policy_checks", "Total number of policy checks performed", labels3("source_id", "check_type", "result")));
        r.push(metric_doc(MetricType::Counter, p, "records_ingested", "Total number of records ingested through the gateway (envelopes that will be parsed into records)", labels1("source_id")));
        r.push(metric_doc(MetricType::Histogram, p, "payload_bytes", "Size of payloads processed by the gateway in bytes", labels1("source_id")));
        r.push(metric_doc(MetricType::Histogram, p, "processing_duration_seconds", "Duration of envelope processing in the gateway in seconds", labels1("source_id")));
        r.push(metric_doc(MetricType::Histogram, p, "cas_write_bytes", "Size of data written to CAS in bytes", labels1("storage_type")));
        r.push(metric_doc(MetricType::Histogram, p, "cas_operation_duration_seconds", "Duration of CAS operations in seconds", labels1("storage_type")));
        assert(r@.map_values(|d: MetricDoc| d@) =~~= gateway_documentation());
        r
    }
}

/// The gateway phase registers exactly the metrics it documents: the same
/// kinds and names, in the same order.
pub proof fn lemma_gateway_registers_documented()
    ensures
        gateway_registrations() == gateway_documentation().map_values(|d: MetricDocView| (d.metric_type, d.name)),
{
    assert(gateway_registrations() =~= gateway_documentation().map_values(|d: MetricDocView| (d.metric_type, d.name)));
}

} // verus!
