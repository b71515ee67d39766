//! Gateway phase: envelopes, content-addressed writes and per-source ingest.

use crate::metrics::{
    counter_op, duration_op, labeled_counter_op, labeled_duration_op, labeled_histogram_op, metric_label, op_is_duration, op_labels, op_view, MetricLabel,
    MetricOp, MetricType,
};
use crate::text::owned;
use vstd::prelude::*;

verus! {

/// An accepted envelope.
pub fn envelope_accepted() -> (r: MetricOp)
    ensures
        op_view(r) == (MetricType::Counter, "sms_gateway_envelopes_accepted_total"@, 1u64),
        op_labels(r).len() == 0,
{
    counter_op(owned("sms_gateway_envelopes_accepted_total"), 1)
}

/// A deduplicated envelope.
pub fn envelope_deduplicated() -> (r: MetricOp)
    ensures
        op_view(r) == (MetricType::Counter, "sms_gateway_envelopes_deduplicated_total"@, 1u64),
        op_labels(r).len() == 0,
{
    counter_op(owned("sms_gateway_envelopes_deduplicated_total"), 1)
}

/// A successful content-addressed write.
pub fn cas_write_success() -> (r: MetricOp)
    ensures
        op_view(r) == (MetricType::Counter, "sms_gateway_cas_writes_success_total"@, 1u64),
        op_labels(r).len() == 0,
{
    counter_op(owned("sms_gateway_cas_writes_success_total"), 1)
}

/// A failed content-addressed write.
pub fn cas_write_error() -> (r: MetricOp)
    ensures
        op_view(r) == (MetricType::Counter, "sms_gateway_cas_writes_error_total"@, 1u64),
        op_labels(r).len() == 0,
{
    counter_op(owned("sms_gateway_cas_writes_error_total"), 1)
}

/// `count` ingested records.
pub fn records_ingested(count: u64) -> (r: MetricOp)
    ensures
        op_view(r) == (MetricType::Counter, "sms_gateway_records_ingested_total"@, count),
        op_labels(r).len() == 0,
{
    counter_op(owned("sms_gateway_records_ingested_total"), count)
}

/// The duration of processing an envelope, in nanoseconds.
pub fn processing_duration(nanos: u64) -> (r: MetricOp)
    ensures
        op_is_duration(r) && op_view(r) == (MetricType::Histogram, "sms_gateway_processing_duration_seconds"@, nanos),
        op_labels(r).len() == 0,
{
    duration_op(owned("sms_gateway_processing_duration_seconds"), nanos)
}

/// A successful ingest of `source_id`.
pub fn ingest_success(source_id: &str) -> (r: MetricOp)
    ensures
        op_view(r) == (MetricType::Counter, "sms_gateway_ingest_success_total"@, 1u64),
        op_labels(r) == seq![("source_id"@, source_id@)],
{
    let mut labels: Vec<MetricLabel> = Vec::new();
    labels.push(metric_label("source_id", source_id));
    let r = labeled_counter_op(owned("sms_gateway_ingest_success_total"), labels, 1);
    assert(op_labels(r) =~= seq![("source_id"@, source_id@)]);
    r
}

/// A failed ingest of `source_id`, with the kind of error.
pub fn ingest_error(source_id: &str, error_type: &str) -> (r: MetricOp)
    ensures
        op_view(r) == (MetricType::Counter, "sms_gateway_ingest_error_total"@, 1u64),
        op_labels(r) == seq![("source_id"@, source_id@), ("error_type"@, error_type@)],
{
    let mut labels: Vec<MetricLabel> = Vec::new();
    labels.push(metric_label("source_id", source_id));
    labels.push(metric_label("error_type", error_type));
    let r = labeled_counter_op(owned("sms_gateway_ingest_error_total"), labels, 1);
    assert(op_labels(r) =~= seq![("source_id"@, source_id@), ("error_type"@, error_type@)]);
    r
}

/// `bytes` ingested from `source_id`.
pub fn bytes_ingested(source_id: &str, bytes: u64) -> (r: MetricOp)
    ensures
        !op_is_duration(r) && op_view(r) == (MetricType::Histogram, "sms_gateway_bytes_ingested"@, bytes),
        op_labels(r) == seq![("source_id"@, source_id@)],
{
    let mut labels: Vec<MetricLabel> = Vec::new();
    labels.push(metric_label("source_id", source_id));
    let r = labeled_histogram_op(owned("sms_gateway_bytes_ingested"), labels, bytes);
    assert(op_labels(r) =~= seq![("source_id"@, source_id@)]);
    r
}

/// The duration of an ingest of `source_id`, in nanoseconds.
pub fn duration(source_id: &str, nanos: u64) -> (r: MetricOp)
    ensures
        op_is_duration(r) && op_view(r) == (MetricType::Histogram, "sms_gateway_ingest_duration_seconds"@, nanos),
        op_labels(r) == seq![("source_id"@, source_id@)],
{
    let mut labels: Vec<MetricLabel> = Vec::new();
    labels.push(metric_label("source_id", source_id));
    let r = labeled_duration_op(owned("sms_gateway_ingest_duration_seconds"), labels, nanos);
    assert(op_labels(r) =~= seq![("source_id"@, source_id@)]);
    r
}

/// The updates recorded for one ingest outcome: on success the source's
/// success counter, its byte count, the ingest's duration (nanoseconds)
/// and the envelope counter; on failure a `fetch_failed` error.
pub fn ingest_outcome(source_id: &str, bytes: u64, nanos: u64, success: bool, envelope_id: &str) -> (r: Vec<MetricOp>)
    ensures
        success ==> r@.len() == 4 && op_view(r@[0]) == (MetricType::Counter, "sms_gateway_ingest_success_total"@, 1u64)
            && op_labels(r@[0]) == seq![("source_id"@, source_id@)]
            && !op_is_duration(r@[1]) && op_view(r@[1]) == (MetricType::Histogram, "sms_gateway_bytes_ingested"@, bytes)
            && op_labels(r@[1]) == seq![("source_id"@, source_id@)]
            && op_is_duration(r@[2]) && op_view(r@[2]) == (MetricType::Histogram, "sms_gateway_ingest_duration_seconds"@, nanos)
            && op_labels(r@[2]) == seq![("source_id"@, source_id@)]
            && op_view(r@[3]) == (MetricType::Counter, "sms_gateway_envelope_created"@, 1u64)
            && op_labels(r@[3]) == seq![("source_id"@, source_id@), ("envelope_id"@, envelope_id@)],
        !success ==> r@.len() == 1 && op_view(r@[0]) == (MetricType::Counter, "sms_gateway_ingest_error_total"@, 1u64)
            && op_labels(r@[0]) == seq![("source_id"@, source_id@), ("error_type"@, "fetch_failed"@)],
{
    let mut r: Vec<MetricOp> = Vec::new();
    if success {
        r.push(ingest_success(source_id));
        r.push(bytes_ingested(source_id, bytes));
        r.push(duration(source_id, nanos));
        let mut labels: Vec<MetricLabel> = Vec::new();
        labels.push(metric_label("source_id", source_id));
        labels.push(metric_label("envelope_id", envelope_id));
        let created = labeled_counter_op(owned("sms_gateway_envelope_created"), labels, 1);
        assert(op_labels(created) =~= seq![("source_id"@, source_id@), ("envelope_id"@, envelope_id@)]);
        r.push(created);
    } else {
        r.push(ingest_error(source_id, "fetch_failed"));
    }
    r
}

} // verus!
