use sms_scraper::pipeline::{EventOutcome, Pipeline};
use sms_scraper::metrics::MetricOp;

#[test]
fn summary_counts_each_event_once() {
    let outcomes = vec![
        EventOutcome::Processed,
        EventOutcome::Skipped,
        EventOutcome::Failed("missing title".to_string()),
        EventOutcome::Processed,
        EventOutcome::Failed("bad date".to_string()),
    ];
    let r = Pipeline::summarize("kexp", &outcomes, "output/kexp_20250820_120000.json");
    assert_eq!(r.api_name, "kexp");
    assert_eq!(r.total_events, 5);
    assert_eq!(r.processed_events, 2);
    assert_eq!(r.skipped_events, 1);
    assert_eq!(r.errors, vec!["Failed to process event 2: missing title", "Failed to process event 4: bad date"]);
    assert_eq!(r.output_file, "output/kexp_20250820_120000.json");
    assert_eq!(r.processed_events + r.skipped_events + r.errors.len(), r.total_events);
}

#[test]
fn empty_run() {
    let r = Pipeline::summarize("none", &Vec::new(), "");
    assert_eq!((r.total_events, r.processed_events, r.skipped_events, r.errors.len()), (0, 0, 0, 0));
}

fn names(ops: &[MetricOp]) -> Vec<String> {
    ops.iter()
        .map(|op| match op {
            MetricOp::IncrementCounter { name, .. } => name.clone(),
            MetricOp::SetGauge { name, .. } => name.clone(),
            MetricOp::RecordHistogram { name, .. } => name.clone(),
            MetricOp::RecordDuration { name, .. } => name.clone(),
        })
        .collect()
}

#[test]
fn run_metrics_in_order() {
    let fetch = Pipeline::fetch_metrics(2_000, 12);
    assert_eq!(
        names(&fetch),
        vec![
            "sms_sources_registry_loads_success_total",
            "sms_sources_request_duration_seconds",
            "sms_sources_requests_success_total",
            "sms_sources_request_duration_seconds",
            "sms_sources_payload_bytes"
        ]
    );
    assert!(matches!(fetch[1], MetricOp::RecordDuration { nanos: 2_000, .. }));
    assert!(matches!(fetch[3], MetricOp::RecordDuration { nanos: 0, .. }));
    assert!(matches!(fetch[4], MetricOp::RecordHistogram { value: 12, .. }));

    let clean = Pipeline::processing_metrics(5, 2, 0);
    assert_eq!(
        names(&clean),
        vec!["sms_parser_batches_processed_total", "sms_parser_batch_records_written", "sms_parser_envelopes_filtered_total"]
    );
    let failing = Pipeline::processing_metrics(5, 2, 1);
    assert_eq!(names(&failing).last().unwrap(), "sms_parser_errors_total");

    let done = Pipeline::completion_metrics(9);
    assert_eq!(
        names(&done),
        vec![
            "sms_parser_batches_processed_total",
            "sms_parser_batch_records_written",
            "sms_parser_duration_seconds",
            "sms_runs_heartbeat_total"
        ]
    );
    assert_eq!(Pipeline::completion_metrics(0).len(), 3);
}
