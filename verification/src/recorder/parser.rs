//! Parser phase: parse outcomes and volumes.

use crate::metrics::{counter_op, duration_op, histogram_op, op_is_duration, op_labels, op_view, MetricOp, MetricType};
use crate::text::owned;
use vstd::prelude::*;

verus! {

/// A successful parse.
pub fn parse_success() -> (r: MetricOp)
    ensures
        op_view(r) == (MetricType::Counter, "sms_parser_parse_success_total"@, 1u64),
        op_labels(r).len() == 0,
{
    counter_op(owned("sms_parser_parse_success_total"), 1)
}

/// A parse error.
pub fn parse_error() -> (r: MetricOp)
    ensures
        op_view(r) == (MetricType::Counter, "sms_parser_parse_error_total"@, 1u64),
        op_labels(r).len() == 0,
{
    counter_op(owned("sms_parser_parse_error_total"), 1)
}

/// The duration of a parse, in nanoseconds.
pub fn duration(nanos: u64) -> (r: MetricOp)
    ensures
        op_is_duration(r) && op_view(r) == (MetricType::Histogram, "sms_parser_duration_seconds"@, nanos),
        op_labels(r).len() == 0,
{
    duration_op(owned("sms_parser_duration_seconds"), nanos)
}

/// Records extracted by a parse.
pub fn records_extracted(count: u64) -> (r: MetricOp)
    ensures
        op_view(r) == (MetricType::Counter, "sms_parser_records_extracted_total"@, count as u64),
        op_labels(r).len() == 0,
{
    counter_op(owned("sms_parser_records_extracted_total"), count as u64)
}

/// Bytes processed by a parse.
pub fn bytes_processed(bytes: usize) -> (r: MetricOp)
    ensures
        !op_is_duration(r) && op_view(r) == (MetricType::Histogram, "sms_parser_bytes_processed"@, bytes as u64),
        op_labels(r).len() == 0,
{
    histogram_op(owned("sms_parser_bytes_processed"), bytes as u64)
}

/// The size of a parse batch.
pub fn batch_size(size: usize) -> (r: MetricOp)
    ensures
        !op_is_duration(r) && op_view(r) == (MetricType::Histogram, "sms_parser_batch_size"@, size as u64),
        op_labels(r).len() == 0,
{
    histogram_op(owned("sms_parser_batch_size"), size as u64)
}

/// The updates of a metered parse taking `nanos` nanoseconds: on success
/// (`Some` with the number of records) a success, the records extracted
/// and the duration; on failure an error and the duration.
pub fn metered_parse(parsed: Option<usize>, nanos: u64) -> (r: Vec<MetricOp>)
    ensures
        match parsed {
            Some(n) => r@.len() == 3 && op_view(r@[0]) == (MetricType::Counter, "sms_parser_parse_success_total"@, 1u64)
                && op_view(r@[1]) == (MetricType::Counter, "sms_parser_records_extracted_total"@, n as u64)
                && op_is_duration(r@[2]) && op_view(r@[2]) == (MetricType::Histogram, "sms_parser_duration_seconds"@, nanos),
            None => r@.len() == 2 && op_view(r@[0]) == (MetricType::Counter, "sms_parser_parse_error_total"@, 1u64)
                && op_is_duration(r@[1]) && op_view(r@[1]) == (MetricType::Histogram, "sms_parser_duration_seconds"@, nanos),
        },
        forall|i: int| 0 <= i < r@.len() ==> (#[trigger] op_labels(r@[i])).len() == 0,
{
    let mut r: Vec<MetricOp> = Vec::new();
    match parsed {
        Some(n) => {
            r.push(parse_success());
            r.push(records_extracted(n as u64));
        },
        None => {
            r.push(parse_error());
        },
    }
    r.push(duration(nanos));
    r
}

} // verus!
