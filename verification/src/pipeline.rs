//! A pipeline run over one API: how each fetched event fared, and the
//! summary of the run.

use crate::metrics::{
    bump_run_heartbeat, op_is_duration, op_labels, ops_view, phase_metric_name, views_of, MetricOp, MetricType, ParserMetrics,
    SourcesMetrics,
};
use crate::text::{decimal_spec, owned, u64_text};
use vstd::prelude::*;

verus! {

/// The result of a complete pipeline run.
#[derive(Debug)]
pub struct PipelineResult {
    pub api_name: String,
    pub total_events: usize,
    pub processed_events: usize,
    pub skipped_events: usize,
    pub errors: Vec<String>,
    pub output_file: String,
}

/// Runs the pipeline; the fetching, storing and writing around it are the
/// caller's.
pub struct Pipeline;

/// How one fetched event fared.
#[derive(Debug)]
pub enum EventOutcome {
    /// It was processed.
    Processed,
    /// The API said to skip it.
    Skipped,
    /// Processing failed with this message.
    Failed(String),
}

/// The number of outcomes that are `Processed`.
pub open spec fn processed_count(o: Seq<EventOutcome>) -> nat
    decreases o.len(),
{
    if o.len() == 0 {
        0
    } else {
        processed_count(o.drop_last()) + if o.last() is Processed { 1nat } else { 0nat }
    }
}

/// The number of outcomes that are `Skipped`.
pub open spec fn skipped_count(o: Seq<EventOutcome>) -> nat
    decreases o.len(),
{
    if o.len() == 0 {
        0
    } else {
        skipped_count(o.drop_last()) + if o.last() is Skipped { 1nat } else { 0nat }
    }
}

/// The error messages of the failed outcomes, in order:
/// `Failed to process event {i}: {message}` with `i` the event's index.
pub open spec fn error_messages(o: Seq<EventOutcome>) -> Seq<Seq<char>>
    decreases o.len(),
{
    if o.len() == 0 {
        Seq::empty()
    } else {
        let prev = error_messages(o.drop_last());
        match o.last() {
            EventOutcome::Failed(m) => prev.push(
                "Failed to process event "@ + decimal_spec((o.len() - 1) as nat) + ": "@ + m@,
            ),
            _ => prev,
        }
    }
}

impl Pipeline {
    /// The summary of a run over `outcomes`, one per fetched event in order,
    /// whose events were written to `output_file`.
    pub fn summarize(api_name: &str, outcomes: &Vec<EventOutcome>, output_file: &str) -> (r: PipelineResult)
        ensures
            r.api_name@ == api_name@,
            r.total_events == outcomes@.len(),
            r.processed_events == processed_count(outcomes@),
            r.skipped_events == skipped_count(outcomes@),
            views_of(r.errors@) == error_messages(outcomes@),
            r.output_file@ == output_file@,
    {
        let mut processed: usize = 0;
        let mut skipped: usize = 0;
        let mut errors: Vec<String> = Vec::new();
        let mut i: usize = 0;
        while i < outcomes.len()
            invariant
                i <= outcomes@.len(),
                processed == processed_count(outcomes@.subrange(0, i as int)),
                skipped == skipped_count(outcomes@.subrange(0, i as int)),
                processed + skipped + errors@.len() == i,
                views_of(errors@) == error_messages(outcomes@.subrange(0, i as int)),
            decreases outcomes@.len() - i,
        {
            let ghost pre = outcomes@.subrange(0, i + 1);
            assert(pre.drop_last() =~= outcomes@.subrange(0, i as int));
            assert(pre.last() == outcomes@[i as int]);
            match &outcomes[i] {
                EventOutcome::Processed => {
                    processed = processed + 1;
                },
                EventOutcome::Skipped => {
                    skipped = skipped + 1;
                },
                EventOutcome::Failed(m) => {
                    let ghost before = views_of(errors@);
                    let mut msg = owned("Failed to process event ");
                    let n = u64_text(i as u64);
                    msg.append(n.as_str());
                    msg.append(": ");
                    msg.append(m.as_str());
                    errors.push(msg);
                    assert(views_of(errors@) =~= before.push(
                        "Failed to process event "@ + decimal_spec(i as nat) + ": "@ + m@,
                    ));
                },
            }
            i = i + 1;
        }
        assert(outcomes@.subrange(0, outcomes@.len() as int) =~= outcomes@);
        PipelineResult {
            api_name: owned(api_name),
            total_events: outcomes.len(),
            processed_events: processed,
            skipped_events: skipped,
            errors,
            output_file: owned(output_file),
        }
    }
}

/// The name of metric `name` of `phase` of kind `kind`.
pub open spec fn pm(kind: MetricType, phase: Seq<char>, name: Seq<char>) -> Seq<char> {
    phase_metric_name(kind, phase, name)
}

/// No update of `ops` has labels.
pub open spec fn unlabeled(ops: Seq<MetricOp>) -> bool {
    forall|i: int| 0 <= i < ops.len() ==> (#[trigger] op_labels(ops[i])).len() == 0
}

/// The updates of `ops` that record durations are those at `positions`.
pub open spec fn durations_at(ops: Seq<MetricOp>, positions: Set<int>) -> bool {
    forall|i: int| 0 <= i < ops.len() ==> (op_is_duration(#[trigger] ops[i]) <==> positions.contains(i))
}

fn append_ops(a: &mut Vec<MetricOp>, b: Vec<MetricOp>)
    ensures
        final(a)@ == old(a)@ + b@,
{
    let mut b = b;
    a.append(&mut b);
}

impl Pipeline {
    /// The updates of a run's fetch of `fetched` events taking `fetch_nanos`
    /// nanoseconds, each for the source ``: a registry load, the request's duration, then a request
    /// success of no duration whose payload size is the number of events.
    pub fn fetch_metrics(fetch_nanos: u64, fetched: usize) -> (r: Vec<MetricOp>)
        ensures
            ops_view(r@) == seq![
                (MetricType::Counter, pm(MetricType::Counter, "sources"@, "registry_loads_success"@), 1u64),
                (MetricType::Histogram, pm(MetricType::Histogram, "sources"@, "request_duration_seconds"@), fetch_nanos),
                (MetricType::Counter, pm(MetricType::Counter, "sources"@, "requests_success"@), 1u64),
                (MetricType::Histogram, pm(MetricType::Histogram, "sources"@, "request_duration_seconds"@), 0u64),
                (MetricType::Histogram, pm(MetricType::Histogram, "sources"@, "payload_bytes"@), fetched as u64),
            ],
            forall|i: int| 0 <= i < r@.len() ==> #[trigger] op_labels(r@[i]) == seq![("source_id"@, ""@)],
            durations_at(r@, set![1int, 3int]),
    {
        let mut r: Vec<MetricOp> = Vec::new();
        r.push(SourcesMetrics::record_registry_load_success(""));
        r.push(SourcesMetrics::record_request_duration("", fetch_nanos));
        let tail = SourcesMetrics::record_request_success("", 0, fetched);
        let ghost head = r@;
        let ghost t = tail@;
        append_ops(&mut r, tail);
        assert(r@ =~= head + t);
        assert(r@[2] == t[0] && r@[3] == t[1] && r@[4] == t[2]);
        assert(ops_view(r@) =~= seq![
            (MetricType::Counter, pm(MetricType::Counter, "sources"@, "registry_loads_success"@), 1u64),
            (MetricType::Histogram, pm(MetricType::Histogram, "sources"@, "request_duration_seconds"@), fetch_nanos),
            (MetricType::Counter, pm(MetricType::Counter, "sources"@, "requests_success"@), 1u64),
            (MetricType::Histogram, pm(MetricType::Histogram, "sources"@, "request_duration_seconds"@), 0u64),
            (MetricType::Histogram, pm(MetricType::Histogram, "sources"@, "payload_bytes"@), fetched as u64),
        ]);
        r
    }

    /// The updates after processing: a batch of `processed` records with no
    /// duration, `skipped` filtered events, and one parse error when any
    /// event failed.
    pub fn processing_metrics(processed: usize, skipped: usize, failed: usize) -> (r: Vec<MetricOp>)
        ensures
            ops_view(r@) == seq![
                (MetricType::Counter, pm(MetricType::Counter, "parser"@, "batches_processed"@), 1u64),
                (MetricType::Histogram, pm(MetricType::Histogram, "parser"@, "batch_records_written"@), processed as u64),
                (MetricType::Counter, pm(MetricType::Counter, "parser"@, "envelopes_filtered"@), skipped as u64),
            ] + if failed > 0 {
                seq![(MetricType::Counter, pm(MetricType::Counter, "parser"@, "errors"@), 1u64)]
            } else {
                Seq::empty()
            },
            forall|i: int| 0 <= i < 3 ==> (#[trigger] op_labels(r@[i])).len() == 0,
            failed > 0 ==> op_labels(r@[3]) == seq![("source_id"@, ""@), ("parse_plan"@, ""@), ("error_type"@, "processing_error"@)],
            durations_at(r@, Set::empty()),
    {
        let mut r = ParserMetrics::record_batch_run_success(processed, 0);
        let ghost a = r@;
        r.push(ParserMetrics::record_envelopes_skipped(skipped));
        if failed > 0 {
            r.push(ParserMetrics::record_parse_error("", "", "processing_error"));
        }
        assert(r@[0] == a[0] && r@[1] == a[1]);
        assert(ops_view(r@) =~= seq![
            (MetricType::Counter, pm(MetricType::Counter, "parser"@, "batches_processed"@), 1u64),
            (MetricType::Histogram, pm(MetricType::Histogram, "parser"@, "batch_records_written"@), processed as u64),
            (MetricType::Counter, pm(MetricType::Counter, "parser"@, "envelopes_filtered"@), skipped as u64),
        ] + if failed > 0 {
            seq![(MetricType::Counter, pm(MetricType::Counter, "parser"@, "errors"@), 1u64)]
        } else {
            Seq::empty()
        });
        r
    }

    /// The updates at the end of a run taking `total_nanos` nanoseconds: an
    /// empty batch carrying the run's duration (not recorded when zero),
    /// then the run heartbeat.
    pub fn completion_metrics(total_nanos: u64) -> (r: Vec<MetricOp>)
        ensures
            ops_view(r@) == seq![
                (MetricType::Counter, pm(MetricType::Counter, "parser"@, "batches_processed"@), 1u64),
                (MetricType::Histogram, pm(MetricType::Histogram, "parser"@, "batch_records_written"@), 0u64),
            ] + (if total_nanos > 0 {
                seq![(MetricType::Histogram, pm(MetricType::Histogram, "parser"@, "duration_seconds"@), total_nanos)]
            } else {
                Seq::empty()
            }) + seq![(MetricType::Counter, "sms_runs_heartbeat_total"@, 1u64)],
            unlabeled(r@),
            durations_at(r@, if total_nanos > 0 { set![2int] } else { Set::empty() }),
    {
        let mut r = ParserMetrics::record_batch_run_success(0, total_nanos);
        let ghost a = r@;
        r.push(bump_run_heartbeat());
        assert(forall|i: int| 0 <= i < a.len() ==> r@[i] == a[i]);
        assert(ops_view(r@) =~= seq![
            (MetricType::Counter, pm(MetricType::Counter, "parser"@, "batches_processed"@), 1u64),
            (MetricType::Histogram, pm(MetricType::Histogram, "parser"@, "batch_records_written"@), 0u64),
        ] + (if total_nanos > 0 {
            seq![(MetricType::Histogram, pm(MetricType::Histogram, "parser"@, "duration_seconds"@), total_nanos)]
        } else {
            Seq::empty()
        }) + seq![(MetricType::Counter, "sms_runs_heartbeat_total"@, 1u64)]);
        r
    }
}

/// Every event of a run is counted once: processed, skipped or failed.
pub proof fn law_outcomes_partition(o: Seq<EventOutcome>)
    ensures
        processed_count(o) + skipped_count(o) + error_messages(o).len() == o.len(),
    decreases o.len(),
{
    if o.len() > 0 {
        law_outcomes_partition(o.drop_last());
    }
}

} // verus!
