use sms_scraper::digest::sha256_hex;
use sms_scraper::ingestion::registry::{ContentSpec, EndpointSpec, PayloadRejection, PolicySpec, RateLimitsSpec, SourceSpecV1};
use sms_scraper::tasks::{gateway_step, FetchOutcome, GatewayAction, GatewayEvent, GatewayState, TaskError};

fn spec(enabled: bool, endpoints: usize) -> SourceSpecV1 {
    SourceSpecV1 {
        source_id: "blue_moon".to_string(),
        enabled,
        endpoints: (0..endpoints)
            .map(|i| EndpointSpec { url: format!("https://example.com/{i}"), method: "GET".to_string() })
            .collect(),
        content: ContentSpec { allowed_mime_types: vec!["application/json".to_string()], max_payload_size_bytes: 100 },
        policy: PolicySpec { license_id: "cc-by".to_string() },
        parse_plan_ref: None,
        rate_limits: RateLimitsSpec { requests_per_min: Some(10), bytes_per_min: None, concurrency: Some(0) },
    }
}

fn fetched(status: u16, content_type: &str, body: &[u8]) -> FetchOutcome {
    FetchOutcome {
        status,
        content_type: Some(content_type.to_string()),
        content_length: None,
        etag: Some("e1".to_string()),
        last_modified: None,
        body: body.to_vec(),
        nanos: 5,
        fetched_at: 1_000,
    }
}

fn begun(bypass: bool) -> GatewayState {
    let (s, a, ops) = gateway_step(GatewayState::Start { source_id: None, bypass, data_root: None }, GatewayEvent::Begin);
    assert!(ops.is_empty());
    match a {
        GatewayAction::LoadSpec { source_id } => assert_eq!(source_id, "blue_moon"),
        _ => panic!("the entry is loaded first"),
    }
    s
}

#[test]
fn a_full_run_submits_the_fetched_payload() {
    let s = begun(false);
    let (s, a, ops) = gateway_step(s, GatewayEvent::SpecLoaded(Ok(spec(true, 2))));
    assert_eq!(ops.len(), 1);
    assert!(matches!(a, GatewayAction::ReadLastFetch { .. }));
    let (s, a, _) = gateway_step(s, GatewayEvent::LastFetched { last: Some(0), now: 43_200 });
    match a {
        GatewayAction::Fetch { url, limits, .. } => {
            assert_eq!(url, "https://example.com/0");
            assert_eq!(limits.concurrency, Some(1));
        }
        _ => panic!("a due source is fetched"),
    }
    let body = br#"{"events":[]}"#;
    let (s, a, ops) = gateway_step(s, GatewayEvent::Fetched(fetched(200, "application/json; charset=utf-8", body)));
    assert_eq!(ops.len(), 3);
    match a {
        GatewayAction::DeriveKey { sha256, etag, .. } => {
            assert_eq!(sha256, sha256_hex(body));
            assert_eq!(etag, Some("e1".to_string()));
        }
        _ => panic!("the key is derived next"),
    }
    let (s, a, _) = gateway_step(s, GatewayEvent::KeyDerived("key-1".to_string()));
    match a {
        GatewayAction::Submit { envelope, body: b } => {
            assert_eq!(envelope.idempotency_key, "key-1");
            assert_eq!(envelope.payload_meta.size_bytes, body.len() as u64);
            assert_eq!(envelope.payload_meta.mime_type, "application/json; charset=utf-8");
            assert_eq!(envelope.request.status, Some(200));
            assert_eq!(envelope.legal.license_id, "cc-by");
            assert_eq!(b, body.to_vec());
        }
        _ => panic!("the envelope is submitted"),
    }
    let (s, a, _) = gateway_step(s, GatewayEvent::Accepted { envelope_id: "env-1".to_string() });
    assert!(matches!(s, GatewayState::Finished));
    match a {
        GatewayAction::Finish(Ok(res)) => {
            assert_eq!(res.envelope_id, "env-1");
            assert_eq!(res.cas_root, "data/cas");
            assert_eq!(res.payload_bytes, body.len());
        }
        _ => panic!("the run succeeds"),
    }
}

#[test]
fn cadence_disabled_and_refusals() {
    let s = begun(false);
    let (s, _, _) = gateway_step(s, GatewayEvent::SpecLoaded(Ok(spec(true, 1))));
    let (_, a, _) = gateway_step(s, GatewayEvent::LastFetched { last: Some(100), now: 200 });
    assert!(matches!(a, GatewayAction::Finish(Err(TaskError::CadenceSkip))));

    let (_, a, _) = gateway_step(begun(false), GatewayEvent::SpecLoaded(Ok(spec(false, 1))));
    assert!(matches!(a, GatewayAction::Finish(Err(TaskError::SourceDisabled))));
    let (_, a, _) = gateway_step(begun(false), GatewayEvent::SpecLoaded(Ok(spec(true, 0))));
    assert!(matches!(a, GatewayAction::Finish(Err(TaskError::NoEndpoint))));
    let (_, a, _) = gateway_step(begun(false), GatewayEvent::SpecLoaded(Err("no such file".to_string())));
    assert!(matches!(a, GatewayAction::Finish(Err(TaskError::RegistryLoadFailed(_)))));

    let (s, a, _) = gateway_step(begun(true), GatewayEvent::SpecLoaded(Ok(spec(true, 1))));
    assert!(matches!(a, GatewayAction::Fetch { .. }));
    let (_, a, ops) = gateway_step(s, GatewayEvent::Fetched(fetched(500, "image/png", b"x")));
    assert_eq!(ops.len(), 1);
    match a {
        GatewayAction::Finish(Err(TaskError::Rejected(PayloadRejection::MimeNotAllowed { content_type, .. }))) => {
            assert_eq!(content_type, "image/png")
        }
        _ => panic!("the media type is refused"),
    }
    let (s, _, _) = gateway_step(begun(true), GatewayEvent::SpecLoaded(Ok(spec(true, 1))));
    let (_, a, _) = gateway_step(s, GatewayEvent::Failed("timeout".to_string()));
    assert!(matches!(a, GatewayAction::Finish(Err(TaskError::Io(_)))));
    let (_, a, _) = gateway_step(GatewayState::Finished, GatewayEvent::Begin);
    assert!(matches!(a, GatewayAction::Finish(Err(TaskError::UnexpectedEvent))));
}

fn finish_message(a: GatewayAction) -> String {
    match a {
        GatewayAction::Finish(Err(e)) => e.message(),
        _ => panic!("the run ends with an error"),
    }
}

#[test]
fn refusals_carry_their_messages() {
    let (s, _, _) = gateway_step(begun(false), GatewayEvent::SpecLoaded(Ok(spec(true, 1))));
    let (_, a, _) = gateway_step(s, GatewayEvent::LastFetched { last: Some(1_000), now: 2_000 });
    assert_eq!(finish_message(a), "cadence_skip: fetched within last 12h");
    let (_, a, _) = gateway_step(begun(false), GatewayEvent::SpecLoaded(Ok(spec(false, 1))));
    assert_eq!(finish_message(a), "Source is disabled");
    let (_, a, _) = gateway_step(begun(false), GatewayEvent::SpecLoaded(Ok(spec(true, 0))));
    assert_eq!(finish_message(a), "No endpoint in registry");
    let (_, a, _) = gateway_step(begun(false), GatewayEvent::SpecLoaded(Err("no such file".to_string())));
    assert_eq!(finish_message(a), "Failed to load registry: no such file");
    let (s, _, _) = gateway_step(begun(true), GatewayEvent::SpecLoaded(Ok(spec(true, 1))));
    let (_, a, _) = gateway_step(s, GatewayEvent::Fetched(fetched(200, "image/png; q=1", b"x")));
    assert_eq!(finish_message(a), "MIME 'image/png; q=1' not in allow-list [\"application/json\"]");
    let mut big = fetched(200, "application/json", b"x");
    big.content_length = Some("500".to_string());
    let (s, _, _) = gateway_step(begun(true), GatewayEvent::SpecLoaded(Ok(spec(true, 1))));
    let (_, a, _) = gateway_step(s, GatewayEvent::Fetched(big));
    assert_eq!(finish_message(a), "Payload too large: 500 > 100");
    let (s, _, _) = gateway_step(begun(true), GatewayEvent::SpecLoaded(Ok(spec(true, 1))));
    let (_, a, _) = gateway_step(s, GatewayEvent::Failed("timeout".to_string()));
    assert_eq!(finish_message(a), "timeout");
    let e = TaskError::Rejected(PayloadRejection::MimeNotAllowed {
        content_type: "x".to_string(),
        allowed: vec!["a\"b".to_string(), "c".to_string()],
    });
    assert_eq!(e.message(), format!("MIME 'x' not in allow-list {:?}", vec!["a\"b", "c"]));
}
