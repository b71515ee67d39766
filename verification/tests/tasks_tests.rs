use sms_scraper::digest::{hex_encode, sha256_hex};
use sms_scraper::ingestion::gateway::{accept_plan, bypass_setting, AcceptPlan};
use sms_scraper::ingestion::registry::{check_payload, ContentSpec, PayloadRejection, RateLimitsSpec};
use sms_scraper::json::Json;
use sms_scraper::tasks::{
    cadence_allows, checksum_payload_ref, declared_length, effective_limits, join_path, line_outcome_before_parse,
    payload_ref_of, plan_parse, LineOutcome, ParseParams, ParseTally, TaskError,
};
use sms_scraper::text::parse_u64;

fn content() -> ContentSpec {
    ContentSpec { allowed_mime_types: vec!["application/json".to_string(), "text/html".to_string()], max_payload_size_bytes: 1000 }
}

#[test]
fn payload_policy() {
    assert!(check_payload("application/json; charset=utf-8", 10, &content()).is_ok());
    assert!(matches!(check_payload("text/html", 1001, &content()), Err(PayloadRejection::TooLarge { size: 1001, max: 1000 })));
    match check_payload("image/png", 10, &content()) {
        Err(PayloadRejection::MimeNotAllowed { content_type, .. }) => assert_eq!(content_type, "image/png"),
        _ => panic!("expected a refusal"),
    }
}

#[test]
fn cadence_is_twelve_hours() {
    assert!(cadence_allows(100_000, None));
    assert!(!cadence_allows(100_000, Some(100_000 - 43_199)));
    assert!(cadence_allows(100_000, Some(100_000 - 43_200)));
}

#[test]
fn concurrency_is_at_least_one() {
    let l = effective_limits(&RateLimitsSpec { requests_per_min: Some(5), bytes_per_min: None, concurrency: Some(0) });
    assert_eq!(l.concurrency, Some(1));
    assert_eq!(l.requests_per_min, Some(5));
}

#[test]
fn content_length_header() {
    assert_eq!(declared_length(Some("1234"), 7), 1234);
    assert_eq!(declared_length(Some("+12"), 7), 12);
    assert_eq!(declared_length(Some("12a"), 7), 7);
    assert_eq!(declared_length(None, 7), 7);
    assert_eq!(parse_u64("18446744073709551615"), Some(u64::MAX));
    assert_eq!(parse_u64("18446744073709551616"), None);
    assert_eq!(parse_u64(""), None);
}

#[test]
fn bypass_values() {
    assert!(bypass_setting(Some("1")));
    assert!(bypass_setting(Some("TRUE")));
    assert!(!bypass_setting(Some("yes")));
    assert!(!bypass_setting(None));
}

#[test]
fn dedupe_unless_bypassed() {
    assert!(matches!(accept_plan(false, Some("e1".to_string())), AcceptPlan::Deduplicate { existing_id } if existing_id == "e1"));
    assert!(matches!(accept_plan(true, Some("e1".to_string())), AcceptPlan::Store));
    assert!(matches!(accept_plan(false, None), AcceptPlan::Store));
}

#[test]
fn paths_join() {
    assert_eq!(join_path("data", "cas"), "data/cas");
    assert_eq!(join_path("data/", "cas"), "data/cas");
    assert_eq!(join_path("", "cas"), "cas");
}

#[test]
fn checksums_are_lowercase_hex() {
    assert_eq!(hex_encode(&[1, 2, 3, 15, 16]), "0102030f10");
    assert_eq!(sha256_hex(b"abc"), "ba7816bf8f01cfea414140de5dae2223b00361a396177a9cb410ff61f20015ad");
}

#[test]
fn parse_plan_defaults_and_validation() {
    let p = plan_parse(ParseParams { consumer: None, max: None, data_root: None, output: None, source_id: None, normalize: None, quality_gate: None }).unwrap();
    assert_eq!(p.consumer, "parser");
    assert_eq!(p.max, 50);
    assert_eq!(p.data_root, "data");
    assert_eq!(p.output, "parsed.ndjson");
    let e = plan_parse(ParseParams { consumer: None, max: None, data_root: None, output: None, source_id: None, normalize: Some(false), quality_gate: Some(true) });
    assert!(matches!(e, Err(TaskError::QualityGateNeedsNormalize)));
}

fn obj(entries: Vec<(&str, Json)>) -> Json {
    Json::Object(entries.into_iter().map(|(k, v)| (k.to_string(), v)).collect())
}

#[test]
fn payload_refs_of_log_lines() {
    let line = obj(vec![("envelope", obj(vec![("payload_ref", Json::Str("cas:x".to_string()))]))]);
    assert_eq!(payload_ref_of(&line), "cas:x");
    let line = obj(vec![(
        "envelope",
        obj(vec![("payload_meta", obj(vec![("checksum", obj(vec![("sha256", Json::Str("ab12".to_string()))]))]))]),
    )]);
    assert_eq!(payload_ref_of(&line), "");
    assert_eq!(checksum_payload_ref(&line).as_deref(), Some("cas:sha256:ab12"));
}

#[test]
fn tally_counts_lines() {
    let mut t = ParseTally::new();
    t.record(LineOutcome::Parsed(3));
    t.record(LineOutcome::Parsed(0));
    t.record(LineOutcome::ParseFailed);
    t.record(LineOutcome::Filtered);
    t.record(LineOutcome::InvalidJson);
    let s = t.summary("out.ndjson".to_string());
    assert_eq!(s.seen, 5);
    assert_eq!(s.written_records, 3);
    assert_eq!(s.empty_record_envelopes, 3);
    assert_eq!(s.filtered_out, 1);
    assert_eq!(line_outcome_before_parse("a", "ref", &Some("b".to_string())), Some(LineOutcome::Filtered));
    assert_eq!(line_outcome_before_parse("a", "", &None), Some(LineOutcome::MissingFields));
    assert_eq!(line_outcome_before_parse("a", "ref", &None), None);
}
