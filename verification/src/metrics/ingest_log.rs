//! Ingest log phase metrics: writes, consumer reads and log size.
use super::{
    apply_op,
    label_set1, label_set2, label_set3, labeled_counter_op, labeled_duration_op, labeled_histogram_op,
    counter_op, doc_view, gauge_op, histogram_op, labels0, labels1, labels2, labels3, metric_doc, op_is_duration, op_labels, op_view,
    phase_metric, phase_metric_name, registration, registration_view, MetricDoc, MetricDocView, MetricOp,
    MetricRegistration, MetricType, PhaseMetrics,
};
use vstd::prelude::*;

verus! {
/// Metrics of the ingest log phase.
pub struct IngestLogMetrics;

impl IngestLogMetrics {
    /// The updates for a successful write of an envelope of `envelope_bytes` bytes.
    pub fn record_write_success(envelope_bytes: usize) -> (r: Vec<MetricOp>)
        ensures
            r@.len() == 2,
            op_view(r@[0]) == (MetricType::Counter, phase_metric_name(MetricType::Counter, "ingest_log"@, "writes_success"@), 1u64),
            op_labels(r@[0]).len() == 0,
            !op_is_duration(r@[1]) && op_view(r@[1]) == (MetricType::Histogram, phase_metric_name(MetricType::Histogram, "ingest_log"@, "write_bytes"@), envelope_bytes as u64),
            op_labels(r@[1]).len() == 0,
    {
        let mut r: Vec<MetricOp> = Vec::new();
        r.push(counter_op(phase_metric(MetricType::Counter, "ingest_log", "writes_success"), 1));
        r.push(histogram_op(phase_metric(MetricType::Histogram, "ingest_log", "write_bytes"), envelope_bytes as u64));
        r
    }

    /// The update for a failed write.
    pub fn record_write_error(error_type: &str) -> (r: MetricOp)
        ensures
            !op_is_duration(r) && op_view(r) == (MetricType::Counter, phase_metric_name(MetricType::Counter, "ingest_log"@, "writes_error"@), 1u64),
            op_labels(r) == seq![("error_type"@, error_type@)],
    {
        labeled_counter_op(phase_metric(MetricType::Counter, "ingest_log", "writes_error"), label_set1("error_type", error_type), 1)
    }

    /// The updates for a consumer read of `envelopes_read` envelopes.
    pub fn record_consumer_read(consumer_id: &str, envelopes_read: usize) -> (r: Vec<MetricOp>)
        ensures
            r@.len() == 2,
            !op_is_duration(r@[0]) && op_view(r@[0]) == (MetricType::Counter, phase_metric_name(MetricType::Counter, "ingest_log"@, "consumer_reads"@), 1u64),
            op_labels(r@[0]) == seq![("consumer_id"@, consumer_id@)],
            !op_is_duration(r@[1]) && op_view(r@[1]) == (MetricType::Histogram, phase_metric_name(MetricType::Histogram, "ingest_log"@, "consumer_read_batch_size"@), envelopes_read as u64),
            op_labels(r@[1]) == seq![("consumer_id"@, consumer_id@)],
    {
        let mut r: Vec<MetricOp> = Vec::new();
        r.push(labeled_counter_op(phase_metric(MetricType::Counter, "ingest_log", "consumer_reads"), label_set1("consumer_id", consumer_id), 1));
        r.push(labeled_histogram_op(phase_metric(MetricType::Histogram, "ingest_log", "consumer_read_batch_size"), label_set1("consumer_id", consumer_id), envelopes_read as u64));
        r
    }

    /// The update of the active log file size.
    pub fn record_current_log_size(size_bytes: u64) -> (r: MetricOp)
        ensures
            op_view(r) == (MetricType::Gauge, phase_metric_name(MetricType::Gauge, "ingest_log"@, "current_file_bytes"@), size_bytes),
            op_labels(r).len() == 0,
    {
        gauge_op(phase_metric(MetricType::Gauge, "ingest_log", "current_file_bytes"), size_bytes)
    }

}

/// The documentation of the ingest_log metrics.
pub open spec fn ingest_log_documentation() -> Seq<MetricDocView> {
    let p = "ingest_log"@;
    seq![
        doc_view(MetricType::Counter, p, "writes_success"@, "Total number of successful writes to the ingest log"@, seq![]),
        doc_view(MetricType::Counter, p, "writes_error"@, "Total number of failed writes to the ingest log"@, seq!["error_type"@]),
        doc_view(MetricType::Counter, p, "consumer_reads"@, "Total number of read operations by consumers"@, seq!["consumer_id"@]),
        doc_view(MetricType::Counter, p, "consumer_acks"@, "Total number of acknowledgments by consumers"@, seq!["consumer_id"@]),
        doc_view(MetricType::Counter, p, "rotations"@, "Total number of log file rotations"@, seq![]),
        doc_view(MetricType::Counter, p, "symlink_updates"@, "Total number of symlink updates"@, seq!["result"@]),
        doc_view(MetricType::Histogram, p, "write_bytes"@, "Size of data written to the ingest log in bytes"@, seq![]),
        doc_view(MetricType::Histogram, p, "consumer_read_batch_size"@, "Number of envelopes read in each consumer batch"@, seq!["consumer_id"@]),
        doc_view(MetricType::Gauge, p, "consumer_lag_bytes"@, "Current lag in bytes for each consumer"@, seq!["consumer_id"@]),
        doc_view(MetricType::Gauge, p, "current_file_bytes"@, "Current size of the active log file in bytes"@, seq![]),
        doc_view(MetricType::Gauge, p, "active_consumers"@, "Number of active consumers"@, seq![]),
    ]
}

/// The kinds and names of the registered ingest_log metrics.
pub open spec fn ingest_log_registrations() -> Seq<(MetricType, Seq<char>)> {
    let p = "ingest_log"@;
    seq![
        (MetricType::Counter, phase_metric_name(MetricType::Counter, p, "writes_success"@)),
        (MetricType::Counter, phase_metric_name(MetricType::Counter, p, "writes_error"@)),
        (MetricType::Counter, phase_metric_name(MetricType::Counter, p, "consumer_reads"@)),
        (MetricType::Counter, phase_metric_name(MetricType::Counter, p, "consumer_acks"@)),
        (MetricType::Counter, phase_metric_name(MetricType::Counter, p, "rotations"@)),
        (MetricType::Counter, phase_metric_name(MetricType::Counter, p, "symlink_updates"@)),
        (MetricType::Histogram, phase_metric_name(MetricType::Histogram, p, "write_bytes"@)),
        (MetricType::Histogram, phase_metric_name(MetricType::Histogram, p, "consumer_read_batch_size"@)),
        (MetricType::Gauge, phase_metric_name(MetricType::Gauge, p, "consumer_lag_bytes"@)),
        (MetricType::Gauge, phase_metric_name(MetricType::Gauge, p, "current_file_bytes"@)),
        (MetricType::Gauge, phase_metric_name(MetricType::Gauge, p, "active_consumers"@)),
    ]
}

impl PhaseMetrics for IngestLogMetrics {
    open spec fn spec_phase() -> Seq<char> {
        "ingest_log"@
    }

    open spec fn spec_documentation() -> Seq<MetricDocView> {
        ingest_log_documentation()
    }

    open spec fn spec_registrations() -> Seq<(MetricType, Seq<char>)> {
        ingest_log_registrations()
    }

    fn register_metrics() -> (r: Vec<MetricRegistration>) {
        let p = "ingest_log";
        let mut r: Vec<MetricRegistration> = Vec::new();
        r.push(registration(MetricType::Counter, p, "writes_success", None));
        r.push(registration(MetricType::Counter, p, "writes_error", None));
        r.push(registration(MetricType::Counter, p, "consumer_reads", None));
        r.push(registration(MetricType::Counter, p, "consumer_acks", None));
        r.push(registration(MetricType::Counter, p, "rotations", None));
        r.push(registration(MetricType::Counter, p, "symlink_updates", None));
        r.push(registration(MetricType::Histogram, p, "write_bytes", None));
        r.push(registration(MetricType::Histogram, p, "consumer_read_batch_size", None));
        r.push(registration(MetricType::Gauge, p, "consumer_lag_bytes", None));
        r.push(registration(MetricType::Gauge, p, "current_file_bytes", None));
        r.push(registration(MetricType::Gauge, p, "active_consumers", None));
        assert(r@.map_values(|x: MetricRegistration| registration_view(x)) =~= ingest_log_registrations());
        r
    }

    fn phase_name() -> (r: &'static str) {
        "ingest_log"
    }

    fn metrics_documentation() -> (r: Vec<MetricDoc>) {
        let p = "ingest_log";
        let mut r: Vec<MetricDoc> = Vec::new();
        r.push(metric_doc(MetricType::Counter, p, "writes_success", "Total number of successful writes to the ingest log", labels0()));
        r.push(metric_doc(MetricType::Counter, p, "writes_error", "Total number of failed writes to the ingest log", labels1("error_type")));
        r.push(metric_doc(MetricType::Counter, p, "consumer_reads", "Total number of read operations by consumers", labels1("consumer_id")));
        r.push(metric_doc(MetricType::Counter, p, "consumer_acks", "Total number of acknowledgments by consumers", labels1("consumer_id")));
        r.push(metric_doc(MetricType::Counter, p, "rotations", "Total number of log file rotations", labels0()));
        r.push(metric_doc(MetricType::Counter, p, "symlink_updates", "Total number of symlink updates", labels1("result")));
        r.push(metric_doc(MetricType::Histogram, p, "write_bytes", "Size of data written to the ingest log in bytes", labels0()));
        r.push(metric_doc(MetricType::Histogram, p, "consumer_read_batch_size", "Number of envelopes read in each consumer batch", labels1("consumer_id")));
        r.push(metric_doc(MetricType::Gauge, p, "consumer_lag_bytes", "Current lag in bytes for each consumer", labels1("consumer_id")));
        r.push(metric_doc(MetricType::Gauge, p, "current_file_bytes", "Current size of the active log file in bytes", labels0()));
        r.push(metric_doc(MetricType::Gauge, p, "active_consumers", "Number of active consumers", labels0()));
        assert(r@.map_values(|d: MetricDoc| d@) =~~= ingest_log_documentation());
        r
    }
}

/// Setting the log-size gauge is idempotent: after the update for `size_bytes`
/// the gauge reads `size_bytes`, whatever it read before, and the same update
/// again changes nothing.
pub proof fn lemma_current_log_size_idempotent(
    values: Map<(Seq<char>, Seq<(Seq<char>, Seq<char>)>), int>,
    size_bytes: u64,
    op1: MetricOp,
    op2: MetricOp,
)
    requires
        op_view(op1) == (MetricType::Gauge, phase_metric_name(MetricType::Gauge, "ingest_log"@, "current_file_bytes"@), size_bytes),
        op_view(op2) == op_view(op1),
        op_labels(op1).len() == 0,
        op_labels(op2).len() == 0,
    ensures
        apply_op(values, op1)[(phase_metric_name(MetricType::Gauge, "ingest_log"@, "current_file_bytes"@), Seq::empty())] == size_bytes,
        apply_op(apply_op(values, op1), op2) == apply_op(values, op1),
{
    assert(op_labels(op1) =~= Seq::<(Seq<char>, Seq<char>)>::empty());
    assert(op_labels(op2) =~= Seq::<(Seq<char>, Seq<char>)>::empty());
    assert(apply_op(apply_op(values, op1), op2) =~= apply_op(values, op1));
}

/// The ingest_log phase registers exactly the metrics it documents: the same
/// kinds and names, in the same order.
pub proof fn lemma_ingest_log_registers_documented()
    ensures
        ingest_log_registrations() == ingest_log_documentation().map_values(|d: MetricDocView| (d.metric_type, d.name)),
{
    assert(ingest_log_registrations() =~= ingest_log_documentation().map_values(|d: MetricDocView| (d.metric_type, d.name)));
}

} // verus!
