//! Ingest log phase: writes, rotations and consumers.

use crate::metrics::{counter_op, gauge_op, histogram_op, op_is_duration, op_labels, op_view, MetricOp, MetricType};
use crate::text::owned;
use vstd::prelude::*;

verus! {

/// A successful write.
pub fn write_success() -> (r: MetricOp)
    ensures
        op_view(r) == (MetricType::Counter, "sms_ingest_log_writes_success_total"@, 1u64),
        op_labels(r).len() == 0,
{
    counter_op(owned("sms_ingest_log_writes_success_total"), 1)
}

/// A failed write.
pub fn write_error() -> (r: MetricOp)
    ensures
        op_view(r) == (MetricType::Counter, "sms_ingest_log_writes_error_total"@, 1u64),
        op_labels(r).len() == 0,
{
    counter_op(owned("sms_ingest_log_writes_error_total"), 1)
}

/// The size of a write.
pub fn write_bytes(bytes: usize) -> (r: MetricOp)
    ensures
        !op_is_duration(r) && op_view(r) == (MetricType::Histogram, "sms_ingest_log_write_bytes"@, bytes as u64),
        op_labels(r).len() == 0,
{
    histogram_op(owned("sms_ingest_log_write_bytes"), bytes as u64)
}

/// A log rotation.
pub fn rotation() -> (r: MetricOp)
    ensures
        op_view(r) == (MetricType::Counter, "sms_ingest_log_rotations_total"@, 1u64),
        op_labels(r).len() == 0,
{
    counter_op(owned("sms_ingest_log_rotations_total"), 1)
}

/// The current size of the log file.
pub fn current_file_bytes(bytes: u64) -> (r: MetricOp)
    ensures
        op_view(r) == (MetricType::Gauge, "sms_ingest_log_current_file_bytes"@, bytes as u64),
        op_labels(r).len() == 0,
{
    gauge_op(owned("sms_ingest_log_current_file_bytes"), bytes as u64)
}

/// The number of active consumers.
pub fn active_consumers(count: usize) -> (r: MetricOp)
    ensures
        op_view(r) == (MetricType::Gauge, "sms_ingest_log_active_consumers"@, count as u64),
        op_labels(r).len() == 0,
{
    gauge_op(owned("sms_ingest_log_active_consumers"), count as u64)
}

} // verus!
