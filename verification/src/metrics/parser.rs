//! Parser phase metrics: envelopes, records, errors and batches.
use super::{
    apply_op,
    label_set1, label_set2, label_set3, labeled_counter_op, labeled_duration_op, labeled_histogram_op,
    counter_op, doc_view, duration_op, gauge_op, histogram_op, labels0, labels1, labels2, labels3, metric_doc, op_is_duration, op_labels, op_view,
    phase_metric, phase_metric_name, registration, registration_view, MetricDoc, MetricDocView, MetricOp,
    MetricRegistration, MetricType, PhaseMetrics,
};
use vstd::prelude::*;

verus! {
/// Metrics of the parser phase.
pub struct ParserMetrics;

impl ParserMetrics {
    /// The update for a parsing error.
    pub fn record_parse_error(source_id: &str, parse_plan: &str, error_type: &str) -> (r: MetricOp)
        ensures
            !op_is_duration(r) && op_view(r) == (MetricType::Counter, phase_metric_name(MetricType::Counter, "parser"@, "errors"@), 1u64),
            op_labels(r) == seq![("source_id"@, source_id@), ("parse_plan"@, parse_plan@), ("error_type"@, error_type@)],
    {
        labeled_counter_op(phase_metric(MetricType::Counter, "parser", "errors"), label_set3("source_id", source_id, "parse_plan", parse_plan, "error_type", error_type), 1)
    }

    /// The updates for a successful parse of one envelope into `records_produced` records, taking `duration_nanos` nanoseconds.
    pub fn record_parse_success(source_id: &str, parse_plan: &str, records_produced: usize, duration_nanos: u64) -> (r: Vec<MetricOp>)
        ensures
            r@.len() == 4,
            !op_is_duration(r@[0]) && op_view(r@[0]) == (MetricType::Counter, phase_metric_name(MetricType::Counter, "parser"@, "envelopes_processed"@), 1u64),
            op_labels(r@[0]) == seq![("source_id"@, source_id@), ("parse_plan"@, parse_plan@)],
            !op_is_duration(r@[1]) && op_view(r@[1]) == (MetricType::Counter, phase_metric_name(MetricType::Counter, "parser"@, "records_produced"@), records_produced as u64),
            op_labels(r@[1]) == seq![("source_id"@, source_id@), ("parse_plan"@, parse_plan@)],
            op_is_duration(r@[2]) && op_view(r@[2]) == (MetricType::Histogram, phase_metric_name(MetricType::Histogram, "parser"@, "duration_seconds"@), duration_nanos),
            op_labels(r@[2]) == seq![("source_id"@, source_id@), ("parse_plan"@, parse_plan@)],
            !op_is_duration(r@[3]) && op_view(r@[3]) == (MetricType::Histogram, phase_metric_name(MetricType::Histogram, "parser"@, "records_per_envelope"@), records_produced as u64),
            op_labels(r@[3]) == seq![("source_id"@, source_id@), ("parse_plan"@, parse_plan@)],
    {
        let mut r: Vec<MetricOp> = Vec::new();
        r.push(labeled_counter_op(phase_metric(MetricType::Counter, "parser", "envelopes_processed"), label_set2("source_id", source_id, "parse_plan", parse_plan), 1));
        r.push(labeled_counter_op(phase_metric(MetricType::Counter, "parser", "records_produced"), label_set2("source_id", source_id, "parse_plan", parse_plan), records_produced as u64));
        r.push(labeled_duration_op(phase_metric(MetricType::Histogram, "parser", "duration_seconds"), label_set2("source_id", source_id, "parse_plan", parse_plan), duration_nanos));
        r.push(labeled_histogram_op(phase_metric(MetricType::Histogram, "parser", "records_per_envelope"), label_set2("source_id", source_id, "parse_plan", parse_plan), records_produced as u64));
        r
    }

    /// The update for a parse that took `duration_nanos` nanoseconds.
    pub fn record_parse_duration(source_id: &str, parse_plan: &str, duration_nanos: u64) -> (r: MetricOp)
        ensures
            op_is_duration(r) && op_view(r) == (MetricType::Histogram, phase_metric_name(MetricType::Histogram, "parser"@, "duration_seconds"@), duration_nanos),
            op_labels(r) == seq![("source_id"@, source_id@), ("parse_plan"@, parse_plan@)],
    {
        labeled_duration_op(phase_metric(MetricType::Histogram, "parser", "duration_seconds"), label_set2("source_id", source_id, "parse_plan", parse_plan), duration_nanos)
    }

    /// The updates for a successful batch run writing `records` records in
    /// `duration_nanos` nanoseconds; a zero duration is not recorded.
    pub fn record_batch_run_success(records: usize, duration_nanos: u64) -> (r: Vec<MetricOp>)
        ensures
            r@.len() == if duration_nanos > 0 { 3int } else { 2int },
            op_view(r@[0]) == (MetricType::Counter, phase_metric_name(MetricType::Counter, "parser"@, "batches_processed"@), 1u64),
            !op_is_duration(r@[1]) && op_view(r@[1]) == (MetricType::Histogram, phase_metric_name(MetricType::Histogram, "parser"@, "batch_records_written"@), records as u64),
            duration_nanos > 0 ==> op_is_duration(r@[2]) && op_view(r@[2]) == (MetricType::Histogram, phase_metric_name(MetricType::Histogram, "parser"@, "duration_seconds"@), duration_nanos),
            forall|i: int| 0 <= i < r@.len() ==> (#[trigger] op_labels(r@[i])).len() == 0,
    {
        let mut r: Vec<MetricOp> = Vec::new();
        r.push(counter_op(phase_metric(MetricType::Counter, "parser", "batches_processed"), 1));
        r.push(histogram_op(phase_metric(MetricType::Histogram, "parser", "batch_records_written"), records as u64));
        if duration_nanos > 0 {
            r.push(duration_op(phase_metric(MetricType::Histogram, "parser", "duration_seconds"), duration_nanos));
        }
        r
    }

    /// The updates for a batch run.
    pub fn record_batch_run(consumer_id: &str, envelopes_processed: usize, records_written: usize) -> (r: Vec<MetricOp>)
        ensures
            r@.len() == 3,
            !op_is_duration(r@[0]) && op_view(r@[0]) == (MetricType::Counter, phase_metric_name(MetricType::Counter, "parser"@, "batches_processed"@), 1u64),
            op_labels(r@[0]) == seq![("consumer_id"@, consumer_id@)],
            !op_is_duration(r@[1]) && op_view(r@[1]) == (MetricType::Histogram, phase_metric_name(MetricType::Histogram, "parser"@, "batch_size_envelopes"@), envelopes_processed as u64),
            op_labels(r@[1]) == seq![("consumer_id"@, consumer_id@)],
            !op_is_duration(r@[2]) && op_view(r@[2]) == (MetricType::Histogram, phase_metric_name(MetricType::Histogram, "parser"@, "batch_records_written"@), records_written as u64),
            op_labels(r@[2]) == seq![("consumer_id"@, consumer_id@)],
    {
        let mut r: Vec<MetricOp> = Vec::new();
        r.push(labeled_counter_op(phase_metric(MetricType::Counter, "parser", "batches_processed"), label_set1("consumer_id", consumer_id), 1));
        r.push(labeled_histogram_op(phase_metric(MetricType::Histogram, "parser", "batch_size_envelopes"), label_set1("consumer_id", consumer_id), envelopes_processed as u64));
        r.push(labeled_histogram_op(phase_metric(MetricType::Histogram, "parser", "batch_records_written"), label_set1("consumer_id", consumer_id), records_written as u64));
        r
    }

    /// The update for `count` skipped envelopes.
    pub fn record_envelopes_skipped(count: usize) -> (r: MetricOp)
        ensures
            op_view(r) == (MetricType::Counter, phase_metric_name(MetricType::Counter, "parser"@, "envelopes_filtered"@), count as u64),
            op_labels(r).len() == 0,
    {
        counter_op(phase_metric(MetricType::Counter, "parser", "envelopes_filtered"), count as u64)
    }

    /// The update for a payload of `bytes` bytes resolved from CAS.
    pub fn record_payload_bytes_resolved(bytes: usize) -> (r: MetricOp)
        ensures
            !op_is_duration(r) && op_view(r) == (MetricType::Histogram, phase_metric_name(MetricType::Histogram, "parser"@, "payload_bytes_resolved"@), bytes as u64),
            op_labels(r).len() == 0,
    {
        histogram_op(phase_metric(MetricType::Histogram, "parser", "payload_bytes_resolved"), bytes as u64)
    }

}

/// The documentation of the parser metrics.
pub open spec fn parser_documentation() -> Seq<MetricDocView> {
    let p = "parser"@;
    seq![
        doc_view(MetricType::Counter, p, "envelopes_processed"@, "Total number of envelopes processed by the parser"@, seq!["source_id"@, "parse_plan"@]),
        doc_view(MetricType::Counter, p, "records_produced"@, "Total number of records produced by the parser"@, seq!["source_id"@, "parse_plan"@]),
        doc_view(MetricType::Counter, p, "errors"@, "Total number of parsing errors"@, seq!["source_id"@, "parse_plan"@, "error_type"@]),
        doc_view(MetricType::Counter, p, "empty_envelopes"@, "Total number of envelopes that produced zero records"@, seq!["source_id"@, "parse_plan"@]),
        doc_view(MetricType::Counter, p, "payload_resolutions_success"@, "Total number of successful payload resolutions from CAS"@, seq!["storage_type"@]),
        doc_view(MetricType::Counter, p, "payload_resolutions_error"@, "Total number of failed payload resolutions from CAS"@, seq!["storage_type"@, "error_type"@]),
        doc_view(MetricType::Counter, p, "envelopes_filtered"@, "Total number of envelopes filtered out during processing"@, seq!["source_id"@, "filter_reason"@]),
        doc_view(MetricType::Counter, p, "dedupe_resolutions"@, "Total number of dedupe resolution attempts"@, seq!["result"@]),
        doc_view(MetricType::Counter, p, "batches_processed"@, "Total number of parsing batches processed"@, seq!["consumer_id"@]),
        doc_view(MetricType::Histogram, p, "duration_seconds"@, "Duration of parsing operations in seconds"@, seq!["source_id"@, "parse_plan"@]),
        doc_view(MetricType::Histogram, p, "records_per_envelope"@, "Number of records produced per envelope"@, seq!["source_id"@, "parse_plan"@]),
        doc_view(MetricType::Histogram, p, "payload_bytes_resolved"@, "Size of payloads resolved from CAS in bytes"@, seq!["storage_type"@]),
        doc_view(MetricType::Histogram, p, "batch_size_envelopes"@, "Number of envelopes in each processing batch"@, seq!["consumer_id"@]),
        doc_view(MetricType::Histogram, p, "batch_records_written"@, "Number of records written in each processing batch"@, seq!["consumer_id"@]),
        doc_view(MetricType::Histogram, p, "payload_resolution_duration_seconds"@, "Duration of payload resolution operations in seconds"@, seq!["storage_type"@]),
    ]
}

/// The kinds and names of the registered parser metrics.
pub open spec fn parser_registrations() -> Seq<(MetricType, Seq<char>)> {
    let p = "parser"@;
    seq![
        (MetricType::Counter, phase_metric_name(MetricType::Counter, p, "envelopes_processed"@)),
        (MetricType::Counter, phase_metric_name(MetricType::Counter, p, "records_produced"@)),
        (MetricType::Counter, phase_metric_name(MetricType::Counter, p, "errors"@)),
        (MetricType::Counter, phase_metric_name(MetricType::Counter, p, "empty_envelopes"@)),
        (MetricType::Counter, phase_metric_name(MetricType::Counter, p, "payload_resolutions_success"@)),
        (MetricType::Counter, phase_metric_name(MetricType::Counter, p, "payload_resolutions_error"@)),
        (MetricType::Counter, phase_metric_name(MetricType::Counter, p, "envelopes_filtered"@)),
        (MetricType::Counter, phase_metric_name(MetricType::Counter, p, "dedupe_resolutions"@)),
        (MetricType::Counter, phase_metric_name(MetricType::Counter, p, "batches_processed"@)),
        (MetricType::Histogram, phase_metric_name(MetricType::Histogram, p, "duration_seconds"@)),
        (MetricType::Histogram, phase_metric_name(MetricType::Histogram, p, "records_per_envelope"@)),
        (MetricType::Histogram, phase_metric_name(MetricType::Histogram, p, "payload_bytes_resolved"@)),
        (MetricType::Histogram, phase_metric_name(MetricType::Histogram, p, "batch_size_envelopes"@)),
        (MetricType::Histogram, phase_metric_name(MetricType::Histogram, p, "batch_records_written"@)),
        (MetricType::Histogram, phase_metric_name(MetricType::Histogram, p, "payload_resolution_duration_seconds"@)),
    ]
}

impl PhaseMetrics for ParserMetrics {
    open spec fn spec_phase() -> Seq<char> {
        "parser"@
    }

    open spec fn spec_documentation() -> Seq<MetricDocView> {
        parser_documentation()
    }

    open spec fn spec_registrations() -> Seq<(MetricType, Seq<char>)> {
        parser_registrations()
    }

    fn register_metrics() -> (r: Vec<MetricRegistration>) {
        let p = "parser";
        let mut r: Vec<MetricRegistration> = Vec::new();
        r.push(registration(MetricType::Counter, p, "envelopes_processed", None));
        r.push(registration(MetricType::Counter, p, "records_produced", None));
        r.push(registration(MetricType::Counter, p, "errors", None));
        r.push(registration(MetricType::Counter, p, "empty_envelopes", None));
        r.push(registration(MetricType::Counter, p, "payload_resolutions_success", None));
        r.push(registration(MetricType::Counter, p, "payload_resolutions_error", None));
        r.push(registration(MetricType::Counter, p, "envelopes_filtered", None));
        r.push(registration(MetricType::Counter, p, "dedupe_resolutions", None));
        r.push(registration(MetricType::Counter, p, "batches_processed", None));
        r.push(registration(MetricType::Histogram, p, "duration_seconds", None));
        r.push(registration(MetricType::Histogram, p, "records_per_envelope", None));
        r.push(registration(MetricType::Histogram, p, "payload_bytes_resolved", None));
        r.push(registration(MetricType::Histogram, p, "batch_size_envelopes", None));
        r.push(registration(MetricType::Histogram, p, "batch_records_written", None));
        r.push(registration(MetricType::Histogram, p, "payload_resolution_duration_seconds", None));
        assert(r@.map_values(|x: MetricRegistration| registration_view(x)) =~= parser_registrations());
        r
    }

    fn phase_name() -> (r: &'static str) {
        "parser"
    }

    fn metrics_documentation() -> (r: Vec<MetricDoc>) {
        let p = "parser";
        let mut r: Vec<MetricDoc> = Vec::new();
        r.push(metric_doc(MetricType::Counter, p, "envelopes_processed", "Total number of envelopes processed by the parser", labels2("source_id", "parse_plan")));
        r.push(metric_doc(MetricType::Counter, p, "records_produced", "Total number of records produced by the parser", labels2("source_id", "parse_plan")));
        r.push(metric_doc(MetricType::Counter, p, "errors", "Total number of parsing errors", labels3("source_id", "parse_plan", "error_type")));
        r.push(metric_doc(MetricType::Counter, p, "empty_envelopes", "Total number of envelopes that produced zero records", labels2("source_id", "parse_plan")));
        r.push(metric_doc(MetricType::Counter, p, "payload_resolutions_success", "Total number of successful payload resolutions from CAS", labels1("storage_type")));
        r.push(metric_doc(MetricType::Counter, p, "payload_resolutions_error", "Total number of failed payload resolutions from CAS", labels2("storage_type", "error_type")));
        r.push(metric_doc(MetricType::Counter, p, "envelopes_filtered", "Total number of envelopes filtered out during processing", labels2("source_id", "filter_reason")));
        r.push(metric_doc(MetricType::Counter, p, "dedupe_resolutions", "Total number of dedupe resolution attempts", labels1("result")));
        r.push(metric_doc(MetricType::Counter, p, "batches_processed", "Total number of parsing batches processed", labels1("consumer_id")));
        r.push(metric_doc(MetricType::Histogram, p, "duration_seconds", "Duration of parsing operations in seconds", labels2("source_id", "parse_plan")));
        r.push(metric_doc(MetricType::Histogram, p, "records_per_envelope", "Number of records produced per envelope", labels2("source_id", "parse_plan")));
        r.push(metric_doc(MetricType::Histogram, p, "payload_bytes_resolved", "Size of payloads resolved from CAS in bytes", labels1("storage_type")));
        r.push(metric_doc(MetricType::Histogram, p, "batch_size_envelopes", "Number of envelopes in each processing batch", labels1("consumer_id")));
        r.push(metric_doc(MetricType::Histogram, p, "batch_records_written", "Number of records written in each processing batch", labels1("consumer_id")));
        r.push(metric_doc(MetricType::Histogram, p, "payload_resolution_duration_seconds", "Duration of payload resolution operations in seconds", labels1("storage_type")));
        assert(r@.map_values(|d: MetricDoc| d@) =~~= parser_documentation());
        r
    }
}

/// Counting skipped envelopes is additive: the update for `a` followed by
/// that for `b` leaves the recorder's values as the one update for `a + b`.
pub proof fn lemma_envelopes_skipped_additive(
    values: Map<(Seq<char>, Seq<(Seq<char>, Seq<char>)>), int>,
    a: usize,
    b: usize,
    op_a: MetricOp,
    op_b: MetricOp,
    op_ab: MetricOp,
)
    requires
        a + b <= usize::MAX,
        op_view(op_a) == (MetricType::Counter, phase_metric_name(MetricType::Counter, "parser"@, "envelopes_filtered"@), a as u64),
        op_view(op_b) == (MetricType::Counter, phase_metric_name(MetricType::Counter, "parser"@, "envelopes_filtered"@), b as u64),
        op_view(op_ab) == (MetricType::Counter, phase_metric_name(MetricType::Counter, "parser"@, "envelopes_filtered"@), (a + b) as u64),
        op_labels(op_a).len() == 0,
        op_labels(op_b).len() == 0,
        op_labels(op_ab).len() == 0,
    ensures
        apply_op(apply_op(values, op_a), op_b) == apply_op(values, op_ab),
{
    assert(op_labels(op_a) =~= op_labels(op_b));
    assert(op_labels(op_a) =~= op_labels(op_ab));
    assert(apply_op(apply_op(values, op_a), op_b) =~= apply_op(values, op_ab));
}

/// The parser phase registers exactly the metrics it documents: the same
/// kinds and names, in the same order.
pub proof fn lemma_parser_registers_documented()
    ensures
        parser_registrations() == parser_documentation().map_values(|d: MetricDocView| (d.metric_type, d.name)),
{
    assert(parser_registrations() =~= parser_documentation().map_values(|d: MetricDocView| (d.metric_type, d.name)));
}

} // verus!
