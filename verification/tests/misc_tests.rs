use sms_scraper::calendar::{local_now_rfc3339, local_year, now_ms, today_utc, utc_year};
use sms_scraper::domain::CalendarDate;
use sms_scraper::ids::{new_v4, uuid_text};
use sms_scraper::json::{copy_json, write_json, Json};
use sms_scraper::metrics::dashboard::{metric_def, DashboardBuilder, MetricType, PanelContent, PanelStyle};
use sms_scraper::metrics::MetricOp;
use sms_scraper::normalize::{NormalizationMetadata, NormalizedEntity, NormalizedRecord, RecordProvenance};
use sms_scraper::quality_gate::DefaultQualityGate;
use sms_scraper::metrics::gateway::GatewayMetrics;
use sms_scraper::metrics::parser::ParserMetrics;
use sms_scraper::metrics::sources::SourcesMetrics;
use sms_scraper::metrics::system::{format_ingest_metrics, MetricsConfig, MetricsSystem, PushError};
use sms_scraper::recorder::gateway::ingest_outcome;
use sms_scraper::recorder::parser::{duration, metered_parse};

#[test]
fn json_is_written_compactly_and_copied_exactly() {
    let j = Json::Object(vec![
        ("a".to_string(), Json::Array(vec![Json::Number("1".to_string()), Json::Null, Json::Bool(false)])),
        ("b\"".to_string(), Json::Str("line\nnext".to_string())),
    ]);
    let mut out = String::new();
    write_json(&j, &mut out);
    assert_eq!(out, r#"{"a":[1,null,false],"b\"":"line\nnext"}"#);
    let c = copy_json(&j);
    let mut again = String::new();
    write_json(&c, &mut again);
    assert_eq!(again, out);
}

#[test]
fn random_ids_are_distinct_version_four_uuids() {
    let a = new_v4();
    let b = new_v4();
    assert_ne!(a, b);
    assert_eq!((a >> 76) & 0xF, 4);
    let t = uuid_text(a);
    assert_eq!(t.len(), 36);
    assert_eq!(&t[14..15], "4");
}

#[test]
fn clocks_give_plausible_values() {
    assert!(now_ms() > 1_600_000_000_000);
    let d = today_utc();
    assert!(d.year >= 2024 && (1..=12).contains(&d.month) && (1..=31).contains(&d.day));
    assert!(utc_year() >= 2024);
    assert!((local_year() - utc_year()).abs() <= 1);
    assert!(local_now_rfc3339().len() >= 20);
}

#[test]
fn assessing_now_keeps_the_record() {
    let record = NormalizedRecord {
        entity: NormalizedEntity::Venue(sms_scraper::domain::Venue {
            id: None,
            name: "Test Venue".to_string(),
            name_lower: "test venue".to_string(),
            slug: "test-venue".to_string(),
            address: "1 Main St".to_string(),
            city: "Seattle".to_string(),
            postal_code: "98101".to_string(),
            neighborhood: None,
            latitude: 47_600_000,
            longitude: -122_300_000,
            venue_url: None,
            venue_image_url: None,
            description: None,
            show_venue: true,
            created_at: 0,
        }),
        provenance: RecordProvenance {
            envelope_id: "e".to_string(),
            source_id: "s".to_string(),
            payload_ref: "p".to_string(),
            record_path: "$".to_string(),
            normalized_at: 0,
        },
        normalization: NormalizationMetadata { confidence: 900, warnings: Vec::new(), geocoded: true, strategy: "x".to_string() },
    };
    let r = DefaultQualityGate::new().assess(record);
    assert!(r.assessed_at > 1_600_000_000_000);
    assert_eq!(r.quality_assessment.quality_score, 900);
    assert_eq!(r.normalized_record.provenance.envelope_id, "e");
}

#[test]
fn dashboard_rows_then_metric_panels() {
    let plan = DashboardBuilder::new("Test")
        .with_datasource("prom")
        .add_metric(metric_def("sms_parser_records_extracted_total", MetricType::Counter, "Records extracted", None, "parser"))
        .add_metric(metric_def("sms_gateway_request_duration_seconds", MetricType::Histogram, "Duration", Some("seconds"), "gateway"))
        .build(true);
    assert_eq!(plan.title, "Test");
    assert_eq!(plan.datasource, "prom");
    assert_eq!(plan.panels.len(), 4);
    match &plan.panels[0].content {
        PanelContent::Row { title } => assert_eq!(title, "GATEWAY Metrics"),
        _ => panic!("rows come first in each phase"),
    }
    match &plan.panels[1].content {
        PanelContent::Metric(m) => assert_eq!(m.style, PanelStyle::QuantileGraph),
        _ => panic!("then its metrics"),
    }
    match &plan.panels[3].content {
        PanelContent::Metric(m) => assert_eq!(m.style, PanelStyle::TotalStat),
        _ => panic!("then its metrics"),
    }
    assert_eq!((plan.panels[0].w, plan.panels[0].h), (24, 1));
    assert_eq!((plan.panels[1].w, plan.panels[1].h), (12, 8));
    let all = DashboardBuilder::from_catalog().build(false);
    assert!(all.panels.len() > 10);
}

fn op_name(op: &MetricOp) -> String {
    match op {
        MetricOp::IncrementCounter { name, .. } => name.clone(),
        MetricOp::SetGauge { name, .. } => name.clone(),
        MetricOp::RecordHistogram { name, .. } => name.clone(),
        MetricOp::RecordDuration { name, .. } => name.clone(),
    }
}

#[test]
fn phase_durations_are_recorded_in_nanoseconds() {
    let ops = ParserMetrics::record_parse_success("blue_moon", "wix_calendar_v1", 7, 250);
    let names: Vec<String> = ops.iter().map(op_name).collect();
    assert_eq!(
        names,
        vec![
            "sms_parser_envelopes_processed_total",
            "sms_parser_records_produced_total",
            "sms_parser_duration_seconds",
            "sms_parser_records_per_envelope"
        ]
    );
    assert!(matches!(ops[1], MetricOp::IncrementCounter { amount: 7, .. }));
    assert!(matches!(ops[2], MetricOp::RecordDuration { nanos: 250, .. }));
    assert!(matches!(ops[3], MetricOp::RecordHistogram { value: 7, .. }));
    assert_eq!(ParserMetrics::record_batch_run_success(3, 0).len(), 2);
    assert_eq!(ParserMetrics::record_batch_run_success(3, 9).len(), 3);
    let accepted = GatewayMetrics::record_envelope_accepted("blue_moon", 512, 40);
    assert_eq!(
        accepted.iter().map(op_name).collect::<Vec<_>>(),
        vec![
            "sms_gateway_envelopes_accepted_total",
            "sms_gateway_payload_bytes",
            "sms_gateway_processing_duration_seconds",
            "sms_gateway_records_ingested_total"
        ]
    );
    let req = SourcesMetrics::record_request_success("blue_moon", 99, 1024);
    assert!(matches!(req[1], MetricOp::RecordDuration { nanos: 99, .. }));
    assert!(matches!(req[2], MetricOp::RecordHistogram { value: 1024, .. }));
    assert_eq!(op_name(&duration(42)), "sms_parser_duration_seconds");
}

#[test]
fn ingest_outcome_counts_success_and_bytes() {
    let ops = ingest_outcome("blue_moon", 2048, 1_500_000_000, true, "env-1");
    assert!(!ops.is_empty());
    let names: Vec<String> = ops.iter().map(op_name).collect();
    assert_eq!(
        names,
        vec![
            "sms_gateway_ingest_success_total",
            "sms_gateway_bytes_ingested",
            "sms_gateway_ingest_duration_seconds",
            "sms_gateway_envelope_created"
        ]
    );
    match &ops[2] {
        MetricOp::RecordDuration { labels, nanos, .. } => {
            assert_eq!(*nanos, 1_500_000_000);
            assert_eq!((labels[0].key.as_str(), labels[0].value.as_str()), ("source_id", "blue_moon"));
        }
        _ => panic!("expected a duration"),
    }
    let failed = ingest_outcome("blue_moon", 0, 0, false, "env-2");
    assert_eq!(failed.len(), 1);
}

#[test]
fn calendar_date_is_plain_data() {
    let d = CalendarDate { year: 2025, month: 8, day: 20 };
    assert_eq!(d, CalendarDate { year: 2025, month: 8, day: 20 });
}

#[test]
fn ingest_push_text_has_buckets_and_envelope() {
    let text = format_ingest_metrics(1_700_000_000_000, 2048, 750_000_000, "0.75", true, "env-9");
    assert!(text.starts_with("# HELP sms_ingest_run_timestamp_ms Last run timestamp in milliseconds\n"));
    assert!(text.contains("sms_ingest_run_timestamp_ms 1700000000000\n\n"));
    assert!(text.contains("sms_ingest_success_total 1\n"));
    assert!(text.contains("sms_ingest_failure_total 0\n"));
    assert!(text.contains("sms_ingest_bytes_total 2048\n"));
    assert!(text.contains("sms_ingest_last_bytes 2048\n"));
    assert!(text.contains("sms_ingest_duration_seconds_bucket{le=\"0.1\"} 0\n"));
    assert!(text.contains("sms_ingest_duration_seconds_bucket{le=\"0.5\"} 0\n"));
    assert!(text.contains("sms_ingest_duration_seconds_bucket{le=\"1\"} 1\n"));
    assert!(text.contains("sms_ingest_duration_seconds_sum 0.75\n"));
    assert!(text.ends_with("# last_envelope_id=\"env-9\"\n"));
    let failed = format_ingest_metrics(-5, 0, 100_000_000, "0.1", false, "");
    assert!(failed.contains("sms_ingest_run_timestamp_ms -5\n"));
    assert!(failed.contains("sms_ingest_failure_total 1\n"));
    assert!(failed.contains("sms_ingest_duration_seconds_bucket{le=\"0.1\"} 1\n"));

    let unset = MetricsSystem::with_config(MetricsConfig::from_settings(None, None));
    assert_eq!(unset.push_request("x").unwrap_err(), PushError::PushgatewayNotConfigured);
    let set = MetricsSystem::with_config(MetricsConfig::from_settings(None, Some("http://pg:9091/".to_string())));
    assert_eq!(set.push_request("x").unwrap_err(), PushError::NoMetricsAvailable);
    let (url, body) = set.push_ingest_request("blue_moon", 1, 2, 3, "0.000000003", true, "e").unwrap();
    assert_eq!(url, "http://pg:9091/metrics/job/sms_scraper/instance/blue_moon");
    assert!(body.contains("sms_ingest_bytes_total 2\n"));
}

#[test]
fn grafana_json_is_what_serde_json_writes() {
    let plan = DashboardBuilder::new("Test \"Board\"")
        .with_datasource("prom")
        .add_metric(metric_def("sms_parser_records_extracted_total", MetricType::Counter, "Records extracted", None, "parser"))
        .add_metric(metric_def("sms_parser_requests", MetricType::Counter, "Requests", None, "parser"))
        .add_metric(metric_def("sms_gateway_size", MetricType::Gauge, "Size", None, "gateway"))
        .build(true);
    let text = plan.to_grafana_json(false);
    let v: serde_json::Value = serde_json::from_str(&text).unwrap();
    assert_eq!(serde_json::to_string(&v).unwrap(), text);
    assert_eq!(v["title"], "Test \"Board\"");
    assert_eq!(v["schemaVersion"], 27);
    assert_eq!(v["refresh"], "10s");
    assert!(v["id"].is_null());
    let panels = v["panels"].as_array().unwrap();
    assert_eq!(panels.len(), 5);
    assert_eq!(panels[0]["type"], "row");
    assert_eq!(panels[0]["title"], "GATEWAY Metrics");
    assert_eq!(panels[0]["collapsed"], false);
    assert_eq!(panels[1]["type"], "stat");
    assert_eq!(panels[1]["fieldConfig"]["defaults"]["unit"], "short");
    assert_eq!(panels[1]["fieldConfig"]["defaults"]["thresholds"]["steps"].as_array().unwrap().len(), 1);
    assert_eq!(panels[2]["gridPos"]["y"], 9);
    assert_eq!(panels[3]["type"], "stat");
    assert_eq!(panels[3]["targets"][0]["expr"], "sms_parser_records_extracted_total");
    assert_eq!(panels[3]["fieldConfig"]["defaults"]["thresholds"]["steps"][2]["value"], 10000);
    assert_eq!(panels[3]["datasource"], "prom");
    assert_eq!(panels[4]["type"], "graph");
    assert_eq!(panels[4]["title"], "Requests (Rate)");
    assert_eq!(panels[4]["targets"][0]["expr"], "rate(sms_parser_requests[5m])");
    assert_eq!(panels[4]["gridPos"], serde_json::from_str::<serde_json::Value>(r#"{"x":12,"y":10,"w":12,"h":8}"#).unwrap());
    assert_eq!(panels[4]["options"]["legend"]["calcs"][1], "lastNotNull");

    let wrapped = DashboardBuilder::from_catalog().build(false).to_grafana_json(true);
    let w: serde_json::Value = serde_json::from_str(&wrapped).unwrap();
    assert_eq!(serde_json::to_string(&w).unwrap(), wrapped);
    assert_eq!(w["overwrite"], true);
    assert_eq!(w["dashboard"]["title"], "SMS Scraper Metrics Dashboard");
    assert_eq!(w["dashboard"]["annotations"]["list"][0]["name"], "Annotations & Alerts");
}

#[test]
fn metered_parses_count_outcomes_and_time() {
    let ok = metered_parse(Some(4), 77);
    assert_eq!(
        ok.iter().map(op_name).collect::<Vec<_>>(),
        vec!["sms_parser_parse_success_total", "sms_parser_records_extracted_total", "sms_parser_duration_seconds"]
    );
    assert!(matches!(ok[1], MetricOp::IncrementCounter { amount: 4, .. }));
    assert!(matches!(ok[2], MetricOp::RecordDuration { nanos: 77, .. }));
    let failed = metered_parse(None, 5);
    assert_eq!(failed.iter().map(op_name).collect::<Vec<_>>(), vec!["sms_parser_parse_error_total", "sms_parser_duration_seconds"]);
}
