use sms_scraper::ingestion::gateway::eq_ignore_ascii_case;
use sms_scraper::calendar::{date_text, time_text};
use sms_scraper::domain::CalendarDate;
use sms_scraper::ids::uuid_text;
use sms_scraper::text::is_whitespace;
use sms_scraper::catalog::mapper::EntityUtils;
use sms_scraper::enrich::DefaultEnricher;
use sms_scraper::json::Json;
use sms_scraper::metrics::dashboard::{DashboardBuilder, Panel};
use sms_scraper::metrics::ingest_log::IngestLogMetrics;
use sms_scraper::metrics::parser::ParserMetrics;
use sms_scraper::metrics::timing::{time_operation, time_operation_with_labels};
use sms_scraper::metrics::MetricOp;
use sms_scraper::recorder::sources::{payload_bytes, registry_load_success};
use sms_scraper::recorder::{push_options, single_push_request};
use sms_scraper::tasks::{dedupe_of_line, resolve_payload_ref};
use sms_scraper::text::replace_str;

#[test]
fn finishing_a_timing_records_one_unlabeled_duration() {
    match time_operation("test_metric").finish() {
        MetricOp::RecordDuration { name, labels, .. } => {
            assert_eq!(name, "test_metric");
            assert!(labels.is_empty());
        }
        _ => panic!("a duration sample"),
    }
    let labeled = time_operation_with_labels("test_metric_labeled", vec![("source", "test".to_string())]);
    assert_eq!(labeled.labels.len(), 1);
    match labeled.finish() {
        MetricOp::RecordDuration { name, labels, .. } => {
            assert_eq!(name, "test_metric_labeled");
            assert!(labels.is_empty());
        }
        _ => panic!("a duration sample"),
    }
}

#[test]
fn spatial_bins_on_degenerate_grids() {
    let zero = DefaultEnricher { spatial_grid_size: 0, ..DefaultEnricher::new() };
    assert_eq!(zero.generate_spatial_bin(47_606_200, -122_332_100), "seattle_grid_2147483647_-2147483648");
    assert_eq!(zero.generate_spatial_bin(0, 5), "seattle_grid_0_2147483647");
    let negative = DefaultEnricher { spatial_grid_size: -10_000, ..DefaultEnricher::new() };
    assert_eq!(negative.generate_spatial_bin(47_606_200, -122_332_100), "seattle_grid_-4761_12233");
    let fine = DefaultEnricher { spatial_grid_size: 1, ..DefaultEnricher::new() };
    assert_eq!(fine.generate_spatial_bin(i64::MAX, i64::MIN), "seattle_grid_2147483647_-2147483648");
}

#[test]
fn replacing_an_empty_pattern_interleaves() {
    assert_eq!(replace_str("aaa", "", "x"), "aaa".replace("", "x"));
    assert_eq!(replace_str("aaa", "", "x"), "xaxaxax");
    assert_eq!(replace_str("", "", "x"), "x");
    assert_eq!(replace_str("a-b-c", "-", "+"), "a+b+c");
}

#[test]
fn slugs_of_ascii_names_are_stable() {
    let s = EntityUtils::generate_slug("The Crocodile");
    assert_eq!(s, "the-crocodile");
    assert_eq!(EntityUtils::generate_slug(&s), s);
    let t = EntityUtils::generate_slug("--Hello,  World!--");
    assert_eq!(t, "hello-world");
    assert_eq!(EntityUtils::generate_slug(&t), t);
    assert_eq!(EntityUtils::generate_slug("!!!"), "");
    assert_eq!(EntityUtils::generate_slug(""), "");
}

#[test]
fn gauge_updates_set_and_counter_updates_add() {
    let a = IngestLogMetrics::record_current_log_size(5);
    let b = IngestLogMetrics::record_current_log_size(5);
    match (a, b) {
        (MetricOp::SetGauge { name: n1, value: v1 }, MetricOp::SetGauge { name: n2, value: v2 }) => {
            assert_eq!(n1, "sms_ingest_log_current_file_bytes");
            assert_eq!((n1, v1), (n2, v2));
            assert_eq!(v1, 5);
        }
        _ => panic!("gauge updates"),
    }
    let amount = |op: MetricOp| match op {
        MetricOp::IncrementCounter { name, amount, .. } => {
            assert_eq!(name, "sms_parser_envelopes_filtered_total");
            amount
        }
        _ => panic!("a counter update"),
    };
    let two = amount(ParserMetrics::record_envelopes_skipped(2));
    let three = amount(ParserMetrics::record_envelopes_skipped(3));
    assert_eq!(two + three, amount(ParserMetrics::record_envelopes_skipped(5)));
}

#[test]
fn pushing_a_counter_to_the_pushgateway() {
    let opts = push_options(None, None);
    let url = Some("http://gw:9091/".to_string());
    let (target, body) = single_push_request(&opts, &url, &registry_load_success()).unwrap();
    assert_eq!(target, "http://gw:9091/metrics/job/sms_scraper/instance/default");
    assert_eq!(
        body,
        "# TYPE sms_sources_registry_loads_success_total counter\nsms_sources_registry_loads_success_total 1\n"
    );
    assert!(single_push_request(&opts, &None, &registry_load_success()).is_none());
    assert!(single_push_request(&opts, &url, &payload_bytes(10)).is_none());
    let custom = push_options(Some("job"), Some("box"));
    let (target, _) = single_push_request(&custom, &Some("http://gw".to_string()), &registry_load_success()).unwrap();
    assert_eq!(target, "http://gw/metrics/job/job/instance/box");
}

#[test]
fn dashboard_layout_numbers_every_panel() {
    let layout = DashboardBuilder::from_catalog().layout();
    assert_eq!(layout.phases.len(), 6);
    assert_eq!(layout.panels.len(), 6 + 32);
    for (i, p) in layout.panels.iter().enumerate() {
        let id = match p {
            Panel::Row { id, .. } => *id,
            Panel::Metric { id, .. } => *id,
        };
        assert_eq!(id, i as u64 + 1);
    }
    assert_eq!(layout.panels.iter().filter(|p| matches!(p, Panel::Row { .. })).count(), 6);
}

fn obj(entries: Vec<(&str, Json)>) -> Json {
    Json::Object(entries.into_iter().map(|(k, v)| (k.to_string(), v)).collect())
}

fn text(s: &str) -> Json {
    Json::Str(s.to_string())
}

#[test]
fn deduplicated_lines_take_the_first_payload() {
    let own = obj(vec![("payload_ref", text("cas:sha256:own")), ("dedupe_of", text("e1"))]);
    assert_eq!(resolve_payload_ref(&own, None), "cas:sha256:own");
    let dup = obj(vec![
        ("payload_ref", text("")),
        ("dedupe_of", text("e1")),
        ("envelope", obj(vec![("payload_meta", obj(vec![("checksum", obj(vec![("sha256", text("abc"))]))]))])),
    ]);
    assert_eq!(dedupe_of_line(&dup), Some("e1".to_string()));
    let first = obj(vec![("envelope", obj(vec![("payload_ref", text("cas:sha256:orig"))]))]);
    assert_eq!(resolve_payload_ref(&dup, Some(&first)), "cas:sha256:orig");
    assert_eq!(resolve_payload_ref(&dup, None), "cas:sha256:abc");
    let bare = obj(vec![("envelope_id", text("x"))]);
    assert_eq!(dedupe_of_line(&bare), None);
    assert_eq!(resolve_payload_ref(&bare, Some(&first)), "");
}

#[test]
fn stated_formats_of_dates_times_and_ids() {
    assert_eq!(time_text(3661), Some("01:01:01".to_string()));
    assert_eq!(time_text(86_399), Some("23:59:59".to_string()));
    assert_eq!(time_text(86_400), None);
    assert_eq!(date_text(CalendarDate { year: 2025, month: 8, day: 5 }), Some("2025-08-05".to_string()));
    assert_eq!(date_text(CalendarDate { year: 12, month: 1, day: 2 }), Some("0012-01-02".to_string()));
    assert_eq!(date_text(CalendarDate { year: 12345, month: 6, day: 7 }), Some("+12345-06-07".to_string()));
    assert_eq!(date_text(CalendarDate { year: -5, month: 6, day: 7 }), Some("-0005-06-07".to_string()));
    assert_eq!(date_text(CalendarDate { year: 2025, month: 2, day: 30 }), None);
    assert_eq!(uuid_text(0x0123456789abcdef0011223344556677), "01234567-89ab-cdef-0011-223344556677");
    assert_eq!(uuid_text(0), "00000000-0000-0000-0000-000000000000");
    for c in ['\t', '\n', '\u{0B}', '\u{0C}', '\r', ' ', '\u{85}', '\u{A0}', '\u{1680}', '\u{2000}', '\u{200A}', '\u{2028}', '\u{2029}', '\u{202F}', '\u{205F}', '\u{3000}'] {
        assert!(is_whitespace(c));
    }
    for c in ['a', '\u{200B}', '\u{FEFF}', '\u{180E}', '_'] {
        assert!(!is_whitespace(c));
    }
}

#[test]
fn test_timing_guard_basic() {
    let guard = time_operation("test_metric");
    // The duration is recorded when the guard finishes.
    assert!(matches!(guard.finish(), MetricOp::RecordDuration { .. }));
}

#[test]
fn test_timing_guard_with_labels() {
    let guard = time_operation_with_labels("test_metric_labeled", vec![("source", "test".to_string())]);
    assert!(matches!(guard.finish(), MetricOp::RecordDuration { .. }));
}

#[test]
fn ascii_case_mappings() {
    assert_eq!(sms_scraper::text::to_uppercase("ingest_log 2"), "INGEST_LOG 2");
    assert_eq!(sms_scraper::text::to_lowercase("The Crocodile!"), "the crocodile!");
    assert!(sms_scraper::text::is_alphanumeric('7') && sms_scraper::text::is_alphanumeric('Q'));
    assert!(!sms_scraper::text::is_alphanumeric('-') && !sms_scraper::text::is_alphanumeric(' '));
}

fn leap(y: i64) -> bool {
    (y.rem_euclid(4) == 0 && y.rem_euclid(100) != 0) || y.rem_euclid(400) == 0
}

fn month_days(y: i64, m: i64) -> i64 {
    match m {
        2 => {
            if leap(y) {
                29
            } else {
                28
            }
        }
        4 | 6 | 9 | 11 => 30,
        _ => 31,
    }
}

#[test]
fn stated_day_counts_and_date_texts_match_chrono() {
    let mut years: Vec<i32> = (-401..=2401).step_by(3).collect();
    years.extend([-262_144, -262_143, -262_142, 0, 1, 1600, 1900, 2000, 262_141, 262_142, 262_143]);
    for y in years {
        for m in 0..=13u32 {
            for d in [0u32, 1, 15, 28, 29, 30, 31, 32] {
                let exists = (-262_143..=262_142).contains(&y) && (1..=12).contains(&m) && d >= 1
                    && (d as i64) <= month_days(y as i64, m as i64);
                let date = CalendarDate { year: y, month: m, day: d };
                let n = sms_scraper::calendar::ce_day(date);
                assert_eq!(n.is_some(), exists, "{y}-{m}-{d}");
                if exists {
                    let yy = y as i64 - 1;
                    let before: i64 = (1..m as i64).map(|k| month_days(y as i64, k)).sum();
                    let expected = 365 * yy + yy.div_euclid(4) - yy.div_euclid(100) + yy.div_euclid(400) + before + d as i64;
                    assert_eq!(n.unwrap() as i64, expected, "{y}-{m}-{d}");
                    let year = if (0..=9999).contains(&y) {
                        format!("{:04}", y)
                    } else if y > 9999 {
                        format!("+{:04}", y)
                    } else {
                        format!("-{:04}", -(y as i64))
                    };
                    assert_eq!(date_text(date), Some(format!("{year}-{:02}-{:02}", m, d)));
                } else {
                    assert_eq!(date_text(date), None);
                }
            }
        }
    }
}

#[test]
fn ascii_case_insensitive_equality_matches_std() {
    for (a, b) in [("TRUE", "true"), ("True", "true"), ("tru", "true"), ("trué", "TRUÉ"), ("é", "É"), ("", ""), ("[", "{"), ("@", "`")] {
        assert_eq!(eq_ignore_ascii_case(a, b), a.eq_ignore_ascii_case(b), "{a} {b}");
    }
    for c in ['\u{0}', 'a', '\u{2060}', '\u{FEFF}', '\u{1680}', '\u{3000}', '\u{85}'] {
        assert_eq!(is_whitespace(c), c.is_whitespace());
    }
}
