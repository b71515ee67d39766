use sms_scraper::json::{parse_json, parse_json_bytes, Json};
use sms_scraper::parser::payload::{parse_payload, PayloadError};
use sms_scraper::parser::venuepilot::VenuePilotError;
use sms_scraper::parser::VenuePilotGraphQLV1Parser;
use sms_scraper::tasks::{cas_key_of, find_envelope, plan_parse, ParseParams, TaskError};
use sms_scraper::text::utf8_lossy;

fn ids() -> (String, String, String) {
    ("src".to_string(), "env".to_string(), "ref".to_string())
}

fn parse(plan: Option<&str>, bytes: &[u8]) -> Result<Vec<sms_scraper::parser::ParsedRecord>, PayloadError> {
    let (a, b, c) = ids();
    parse_payload(plan, bytes, a, b, c)
}

#[test]
fn json_text_becomes_a_document() {
    match parse_json(r#"{"b": [1, 2.5, null], "a": "x"}"#).unwrap() {
        Json::Object(es) => {
            assert_eq!(es.len(), 2);
            let b = es.iter().find(|(k, _)| k == "b").unwrap();
            match &b.1 {
                Json::Array(xs) => {
                    assert!(matches!(&xs[0], Json::Number(n) if n == "1"));
                    assert!(matches!(&xs[1], Json::Number(n) if n == "2.5"));
                    assert!(matches!(&xs[2], Json::Null));
                }
                _ => panic!("an array"),
            }
        }
        _ => panic!("an object"),
    }
    assert!(parse_json("{").is_err());
    assert!(parse_json_bytes(b"\xff").is_err());
    assert_eq!(utf8_lossy(b"a\xffb"), "a\u{FFFD}b");
}

#[test]
fn wix_payloads_by_plan() {
    let out = parse(None, br#"{"events": [{"title": "A"}, {"title": "B"}]}"#).unwrap();
    assert_eq!(out.len(), 2);
    assert_eq!(out[0].record_path, "$.events[*]");
    let out = parse(Some("parse_plan:wix_calendar_v1"), br#"{"eventsByDates": {"2025-08-01": [{"title": "A"}, null]}}"#).unwrap();
    assert_eq!(out.len(), 2);
    assert_eq!(out[1].record_path, "$.eventsByDates.2025-08-01[*]");
    assert!(matches!(out[1].record.get("event_day"), Some(Json::Str(d)) if d == "2025-08-01"));
    match parse(None, br#"{"eventsByDates": {"d": [3]}}"#) {
        Err(e) => {
            assert!(matches!(e, PayloadError::EventNotObject));
            assert_eq!(e.message(), "eventsByDates holds an event that is not an object");
        }
        _ => panic!("a number cannot take its day"),
    }
    match parse(None, b"not json") {
        Err(PayloadError::InvalidJson(m)) => assert_eq!(m, serde_json::from_str::<serde_json::Value>("not json").unwrap_err().to_string()),
        _ => panic!("not JSON"),
    }
    assert!(parse(Some("parse_plan:unknown"), b"whatever").unwrap().is_empty());
}

#[test]
fn graphql_and_html_payloads_by_plan() {
    let body = br#"{"data": {"paginatedEvents": {"collection": [{"name": "Show", "date": "2025-08-15"}]}}}"#;
    let out = parse(Some("parse_plan:venuepilot_graphql_v1"), body).unwrap();
    assert_eq!(out.len(), 1);
    assert_eq!(out[0].record_path, "data.paginatedEvents.collection");
    match parse(Some("parse_plan:venuepilot_graphql_v1"), br#"{"data": {}}"#) {
        Err(e) => assert_eq!(e.message(), "Invalid GraphQL response structure"),
        _ => panic!("no collection"),
    }
    let (a, b, c) = ids();
    match VenuePilotGraphQLV1Parser::new(a, b, c).parse(b"{oops") {
        Err(VenuePilotError::InvalidJson(m)) => assert!(!m.is_empty()),
        _ => panic!("not JSON"),
    }
    let page = b"<html><body><p>nothing</p></body></html>";
    let out = parse(Some("parse_plan:kexp_html_v1"), page).unwrap();
    assert_eq!(out.len(), 1);
    assert_eq!(out[0].record_path, "html");
    assert_eq!(parse(Some("parse_plan:darrells_html_v1"), page).unwrap()[0].source_id, "src");
    assert_eq!(parse(Some("parse_plan:barboza_html_v1"), page).unwrap()[0].envelope_id, "env");
    let out = parse(Some("parse_plan:wix_warmup_v1"), page).unwrap();
    assert_eq!(out[0].record_path, "html");
}

#[test]
fn parse_plans_refuse_the_gate_without_normalization() {
    let params = ParseParams {
        consumer: None,
        max: None,
        data_root: None,
        output: None,
        source_id: None,
        normalize: Some(false),
        quality_gate: Some(true),
    };
    match plan_parse(params) {
        Err(e) => {
            assert!(matches!(e, TaskError::QualityGateNeedsNormalize));
            assert_eq!(
                e.message(),
                "Quality gate requires normalization to be enabled. Use both --normalize and --quality-gate flags."
            );
        }
        Ok(_) => panic!("refused"),
    }
}

#[test]
fn log_lookups_and_payload_keys() {
    let lines = vec![
        None,
        parse_json(r#"{"envelope_id": "e2"}"#).ok(),
        parse_json(r#"{"envelope_id": "e1", "n": 1}"#).ok(),
        parse_json(r#"{"envelope_id": "e1", "n": 2}"#).ok(),
    ];
    assert_eq!(find_envelope(&lines, "e1"), Some(2));
    assert_eq!(find_envelope(&lines, "e3"), None);
    assert_eq!(cas_key_of("cas:sha256:abcdef"), Some("sha256/ab/cd/abcdef".to_string()));
    assert_eq!(cas_key_of("cas:sha256:abc"), None);
    assert_eq!(cas_key_of("sha256:abcdef"), None);
}

fn to_value(j: &Json) -> serde_json::Value {
    match j {
        Json::Null => serde_json::Value::Null,
        Json::Bool(b) => serde_json::Value::Bool(*b),
        Json::Number(n) => serde_json::from_str(n).unwrap(),
        Json::Str(s) => serde_json::Value::String(s.clone()),
        Json::Array(xs) => serde_json::Value::Array(xs.iter().map(to_value).collect()),
        Json::Object(es) => serde_json::Value::Object(es.iter().map(|(k, v)| (k.clone(), to_value(v))).collect()),
    }
}

#[test]
fn written_json_is_what_serde_json_writes() {
    let tricky: Vec<String> = vec![
        "plain".into(),
        "quote \" and backslash \\".into(),
        "controls \u{0}\u{1}\u{8}\u{9}\u{a}\u{c}\u{d}\u{1f}\u{7f}".into(),
        "unicode é ✓ 🎸 \u{2028}\u{2029}".into(),
        "slash / and <tag>".into(),
    ];
    let mut items: Vec<Json> = tricky.iter().map(|s| Json::Str(s.clone())).collect();
    items.push(Json::Number("-12500.5".into()));
    items.push(Json::Bool(true));
    items.push(Json::Null);
    items.push(Json::Object(vec![
        ("a key \"q\"".to_string(), Json::Array(vec![])),
        ("b".to_string(), Json::Object(vec![])),
        ("c\n".to_string(), Json::Str("\\".into())),
    ]));
    let doc = Json::Array(items);
    let mut out = String::new();
    sms_scraper::json::write_json(&doc, &mut out);
    assert_eq!(out, serde_json::to_string(&to_value(&doc)).unwrap());
    // and it reads back as the same document
    assert_eq!(to_value(&parse_json(&out).unwrap()), to_value(&doc));
}

#[test]
fn the_grafana_document_is_json() {
    let text = sms_scraper::metrics::dashboard::DashboardBuilder::from_catalog().build(true).to_grafana_json(true);
    let v: serde_json::Value = serde_json::from_str(&text).unwrap();
    assert_eq!(v["dashboard"]["title"], "SMS Scraper Metrics Dashboard");
    assert_eq!(v["dashboard"]["panels"].as_array().unwrap().len(), 6 + 32);
    assert_eq!(v["overwrite"], true);
}
