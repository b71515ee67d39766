use sms_scraper::metrics::gateway::GatewayMetrics;
use sms_scraper::metrics::ingest_log::IngestLogMetrics;
use sms_scraper::metrics::parser::ParserMetrics;
use sms_scraper::metrics::registry::{extract_phase_from_metric_name, register_all_metrics, MetricsRegistry};
use sms_scraper::metrics::dashboard::{DashboardBuilder, MetricName, MetricType as DMetricType};
use sms_scraper::metrics::sources::{CadenceResult, SourcesMetrics};
use sms_scraper::metrics::system::{push_url, MetricsConfig, MetricsSystem};
use sms_scraper::metrics::{phase_metric, MetricOp, MetricType, PhaseMetrics};

#[test]
fn test_gateway_metrics_registration() {
    GatewayMetrics::register_metrics();
}

#[test]
fn gateway_test_metrics_documentation() {
    let docs = GatewayMetrics::metrics_documentation();
    assert_eq!(docs.len(), 10);

    for doc in docs {
        assert!(doc.name.starts_with("sms_gateway_"));
    }
}

#[test]
fn test_ingest_log_metrics_registration() {
    IngestLogMetrics::register_metrics();
}

#[test]
fn ingest_log_test_metrics_documentation() {
    let docs = IngestLogMetrics::metrics_documentation();
    assert_eq!(docs.len(), 11);

    for doc in docs {
        assert!(doc.name.starts_with("sms_ingest_log_"));
    }
}

#[test]
fn test_metrics_config_default() {
    let config = MetricsConfig::default();
    assert_eq!(config.job_name, "sms_scraper");
}

#[test]
fn test_phase_metric_macro() {
    assert_eq!(phase_metric(MetricType::Counter, "gateway", "requests"), "sms_gateway_requests_total");
    assert_eq!(phase_metric(MetricType::Histogram, "parser", "duration"), "sms_parser_duration");
    assert_eq!(phase_metric(MetricType::Gauge, "ingest", "queue_size"), "sms_ingest_queue_size");
}

#[test]
fn test_parser_metrics_registration() {
    ParserMetrics::register_metrics();
}

#[test]
fn parser_test_metrics_documentation() {
    let docs = ParserMetrics::metrics_documentation();
    assert_eq!(docs.len(), 15);

    for doc in docs {
        assert!(doc.name.starts_with("sms_parser_"));
    }
}

#[test]
fn test_extract_phase_from_metric_name() {
    assert_eq!(extract_phase_from_metric_name("sms_gateway_envelopes_total"), "gateway");
    assert_eq!(extract_phase_from_metric_name("sms_parser_duration_seconds"), "parser");
    assert_eq!(extract_phase_from_metric_name("sms_sources_requests_total"), "sources");
    assert_eq!(extract_phase_from_metric_name("invalid_metric_name"), "unknown");
}

#[test]
fn test_sources_metrics_registration() {
    SourcesMetrics::register_metrics();
}

#[test]
fn sources_test_metrics_documentation() {
    let docs = SourcesMetrics::metrics_documentation();
    assert!(!docs.is_empty());
    assert_eq!(docs.len(), 7);

    for doc in docs {
        assert!(doc.name.starts_with("sms_sources_"));
    }
}

#[test]
fn phase_names_match_their_prefixes() {
    assert_eq!(GatewayMetrics::phase_name(), "gateway");
    assert_eq!(ParserMetrics::phase_name(), "parser");
    assert_eq!(SourcesMetrics::phase_name(), "sources");
    assert_eq!(IngestLogMetrics::phase_name(), "ingest_log");
}

#[test]
fn phase_of_a_documented_metric_is_its_phase() {
    for doc in GatewayMetrics::metrics_documentation() {
        assert_eq!(extract_phase_from_metric_name(&doc.name), "gateway");
    }
    for doc in ParserMetrics::metrics_documentation() {
        assert_eq!(extract_phase_from_metric_name(&doc.name), "parser");
    }
}

#[test]
fn registering_all_phases_keeps_names_distinct() {
    let all = register_all_metrics();
    let mut names: Vec<String> = all.registry.docs().iter().map(|d| d.name.clone()).collect();
    let n = names.len();
    names.sort();
    names.dedup();
    assert_eq!(names.len(), n);
    assert!(n >= 10 + 11 + 15 + 7 - 5);
}

#[test]
fn registry_insert_rejects_duplicates() {
    let mut reg = MetricsRegistry::new();
    let docs = GatewayMetrics::metrics_documentation();
    let first = docs.into_iter().next().unwrap();
    let again = GatewayMetrics::metrics_documentation().into_iter().next().unwrap();
    assert!(reg.insert(first));
    assert!(!reg.insert(again));
    assert_eq!(reg.len(), 1);
}

#[test]
fn push_url_trims_trailing_slashes() {
    assert_eq!(push_url("http://localhost:9091//", "sms_scraper", "default"), "http://localhost:9091/metrics/job/sms_scraper/instance/default");
}

#[test]
fn counter_names_get_total_suffix() {
    assert_eq!(phase_metric(MetricType::Counter, "sources", "requests_success"), "sms_sources_requests_success_total");
    match sms_scraper::recorder::gateway::ingest_success("blue_moon") {
        MetricOp::IncrementCounter { name, labels, amount } => {
            assert_eq!(name, "sms_gateway_ingest_success_total");
            assert_eq!(amount, 1);
            assert_eq!(labels.len(), 1);
            assert_eq!(labels[0].key, "source_id");
            assert_eq!(labels[0].value, "blue_moon");
        }
        _ => panic!("expected a counter"),
    }
}

#[test]
fn declared_phases_of_metric_names() {
    assert_eq!(extract_phase_from_metric_name("sms_ingest_log_writes_success_total"), "ingest_log");
    assert_eq!(extract_phase_from_metric_name("sms_quality_gate_batch_size"), "quality_gate");
    assert_eq!(extract_phase_from_metric_name("sms_ingest_queue_size"), "ingest");
}

#[test]
fn documented_labels_are_attached() {
    match SourcesMetrics::record_cadence_check("blue_moon", CadenceResult::Skipped) {
        MetricOp::IncrementCounter { name, labels, .. } => {
            assert_eq!(name, "sms_sources_cadence_checks_total");
            let pairs: Vec<(String, String)> = labels.into_iter().map(|l| (l.key, l.value)).collect();
            assert_eq!(pairs, vec![("source_id".to_string(), "blue_moon".to_string()), ("result".to_string(), "skipped".to_string())]);
        }
        _ => panic!("a counter"),
    }
    for op in GatewayMetrics::record_cas_write_success("local", 10) {
        let labels = match op {
            MetricOp::IncrementCounter { labels, .. } => labels,
            MetricOp::RecordHistogram { labels, .. } => labels,
            _ => panic!("a counter and a histogram"),
        };
        assert_eq!((labels[0].key.as_str(), labels[0].value.as_str()), ("storage_type", "local"));
    }
}

#[test]
fn rendering_needs_a_running_server() {
    let system = MetricsSystem::new();
    assert!(system.render_metrics().is_none());
    assert_eq!(system.config.http_addr, Some("127.0.0.1:9898".to_string()));
    assert!(!system.config.debug);
}

#[test]
fn the_catalog_holds_every_phase() {
    let b = DashboardBuilder::from_catalog();
    assert_eq!(b.title, "SMS Scraper Metrics Dashboard");
    assert_eq!(b.metrics.len(), 32);
    let phases: Vec<&str> = b.metrics.iter().map(|m| m.phase.as_str()).collect();
    for (p, n) in [("sources", 5), ("gateway", 6), ("ingest_log", 3), ("parser", 5), ("normalize", 6), ("quality_gate", 7)] {
        assert_eq!(phases.iter().filter(|x| **x == p).count(), n);
    }
    assert_eq!(b.metrics.iter().filter(|m| m.metric_type == DMetricType::Counter).count(), 20);
    assert_eq!(b.metrics.iter().filter(|m| m.metric_type == DMetricType::Histogram).count(), 11);
    assert_eq!(b.metrics[13].metric_type, DMetricType::Gauge);
    let e = DashboardBuilder::from_metrics_enum();
    assert_eq!(e.title, "SMS Scraper Metrics Dashboard (Auto-Generated)");
    assert_eq!(e.metrics.len(), 32);
    for (x, y) in b.metrics.iter().zip(e.metrics.iter()) {
        assert_eq!(x.name, y.name);
        assert_eq!(x.description, y.description);
    }
    assert_eq!(MetricName::all_metrics().len(), 32);
    assert_eq!(DashboardBuilder::from_legacy_catalog().metrics.len(), 18);
}
