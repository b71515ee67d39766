//! Sources phase: requests and registry loads.

use crate::metrics::{counter_op, duration_op, histogram_op, op_is_duration, op_labels, op_view, MetricOp, MetricType};
use crate::text::owned;
use vstd::prelude::*;

verus! {

/// A successful request.
pub fn request_success() -> (r: MetricOp)
    ensures
        op_view(r) == (MetricType::Counter, "sms_sources_requests_success_total"@, 1u64),
        op_labels(r).len() == 0,
{
    counter_op(owned("sms_sources_requests_success_total"), 1)
}

/// A failed request.
pub fn request_error() -> (r: MetricOp)
    ensures
        op_view(r) == (MetricType::Counter, "sms_sources_requests_error_total"@, 1u64),
        op_labels(r).len() == 0,
{
    counter_op(owned("sms_sources_requests_error_total"), 1)
}

/// The duration of a request, in nanoseconds.
pub fn request_duration(nanos: u64) -> (r: MetricOp)
    ensures
        op_is_duration(r) && op_view(r) == (MetricType::Histogram, "sms_sources_request_duration_seconds"@, nanos),
        op_labels(r).len() == 0,
{
    duration_op(owned("sms_sources_request_duration_seconds"), nanos)
}

/// The size of a fetched payload.
pub fn payload_bytes(bytes: usize) -> (r: MetricOp)
    ensures
        !op_is_duration(r) && op_view(r) == (MetricType::Histogram, "sms_sources_payload_bytes"@, bytes as u64),
        op_labels(r).len() == 0,
{
    histogram_op(owned("sms_sources_payload_bytes"), bytes as u64)
}

/// A successful registry load.
pub fn registry_load_success() -> (r: MetricOp)
    ensures
        op_view(r) == (MetricType::Counter, "sms_sources_registry_loads_success_total"@, 1u64),
        op_labels(r).len() == 0,
{
    counter_op(owned("sms_sources_registry_loads_success_total"), 1)
}

/// A failed registry load.
pub fn registry_load_error() -> (r: MetricOp)
    ensures
        op_view(r) == (MetricType::Counter, "sms_sources_registry_loads_error_total"@, 1u64),
        op_labels(r).len() == 0,
{
    counter_op(owned("sms_sources_registry_loads_error_total"), 1)
}

} // verus!
