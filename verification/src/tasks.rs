//! The decisions of the two batch tasks: a gateway run that fetches one
//! source into an envelope, and a parse run over the ingest log.

use crate::ingestion::envelope::{ChecksumMeta, EnvelopeSubmissionV1, LegalMeta, PayloadMeta, RequestMeta, TimingMeta};
use crate::ingestion::rate_limiter::Limits;
use crate::digest::{hex_spec, sha256_hex, sha256_of};
use crate::ingestion::registry::{check_payload, mime_allowed, mime_base, PayloadRejection, RateLimitsSpec, SourceSpecV1};
use crate::json::{json_get, json_str, Json};
use crate::metrics::{op_is_duration, op_labels, op_view, MetricOp, MetricType};
use crate::recorder::sources::{payload_bytes, registry_load_error, registry_load_success, request_duration, request_error, request_success};
use crate::text::{debug_list, debug_list_of, decimal_spec, owned, parse_u64, parse_u64_spec, str_eq, u64_text};
use vstd::prelude::*;
use vstd::string::*;

verus! {

/// Parameters of a gateway run.
#[derive(Debug)]
pub struct GatewayOnceParams {
    pub source_id: Option<String>,
    pub data_root: Option<String>,
    pub bypass_cadence: Option<bool>,
}

/// What a gateway run produced.
#[derive(Debug)]
pub struct GatewayOnceResult {
    pub source_id: String,
    pub envelope_id: String,
    pub payload_bytes: usize,
    pub ingest_log: String,
    pub cas_root: String,
}

/// Parameters of a parse run.
#[derive(Debug)]
pub struct ParseParams {
    pub consumer: Option<String>,
    pub max: Option<usize>,
    pub data_root: Option<String>,
    pub output: Option<String>,
    pub source_id: Option<String>,
    pub normalize: Option<bool>,
    pub quality_gate: Option<bool>,
}

/// What a parse run did.
#[derive(Debug)]
pub struct ParseResultSummary {
    pub seen: usize,
    pub filtered_out: usize,
    pub empty_record_envelopes: usize,
    pub written_records: usize,
    pub output_file: String,
}

/// Why a task stopped.
#[derive(Debug)]
pub enum TaskError {
    /// The quality gate was asked for without normalization.
    QualityGateNeedsNormalize,
    /// The source is disabled in the registry.
    SourceDisabled,
    /// The source's registry entry has no endpoint.
    NoEndpoint,
    /// The source was fetched less than twelve hours ago.
    CadenceSkip,
    /// The source's registry entry could not be loaded, for this reason.
    RegistryLoadFailed(String),
    /// The fetched payload was refused.
    Rejected(PayloadRejection),
    /// Outside work failed with this message.
    Io(String),
    /// An event came that the run was not waiting for.
    UnexpectedEvent,
}

/// The message of a task error.
pub open spec fn task_error_text(e: TaskError) -> Seq<char> {
    match e {
        TaskError::QualityGateNeedsNormalize =>
            "Quality gate requires normalization to be enabled. Use both --normalize and --quality-gate flags."@,
        TaskError::SourceDisabled => "Source is disabled"@,
        TaskError::NoEndpoint => "No endpoint in registry"@,
        TaskError::CadenceSkip => "cadence_skip: fetched within last 12h"@,
        TaskError::RegistryLoadFailed(m) => "Failed to load registry: "@ + m@,
        TaskError::Rejected(PayloadRejection::TooLarge { size, max }) =>
            "Payload too large: "@ + decimal_spec(size as nat) + " > "@ + decimal_spec(max as nat),
        TaskError::Rejected(PayloadRejection::MimeNotAllowed { content_type, allowed }) =>
            "MIME '"@ + content_type@ + "' not in allow-list "@ + debug_list_of(allowed@.map_values(|x: String| x@)),
        TaskError::Io(m) => m@,
        TaskError::UnexpectedEvent => "Unexpected event"@,
    }
}

impl TaskError {
    /// The error's message.
    pub fn message(&self) -> (r: String)
        ensures
            r@ == task_error_text(*self),
    {
        match self {
            TaskError::QualityGateNeedsNormalize =>
                owned("Quality gate requires normalization to be enabled. Use both --normalize and --quality-gate flags."),
            TaskError::SourceDisabled => owned("Source is disabled"),
            TaskError::NoEndpoint => owned("No endpoint in registry"),
            TaskError::CadenceSkip => owned("cadence_skip: fetched within last 12h"),
            TaskError::RegistryLoadFailed(m) => {
                let mut r = owned("Failed to load registry: ");
                r.append(m.as_str());
                r
            },
            TaskError::Rejected(PayloadRejection::TooLarge { size, max }) => {
                let mut r = owned("Payload too large: ");
                let a = u64_text(*size);
                r.append(a.as_str());
                r.append(" > ");
                let b = u64_text(*max);
                r.append(b.as_str());
                r
            },
            TaskError::Rejected(PayloadRejection::MimeNotAllowed { content_type, allowed }) => {
                let mut r = owned("MIME '");
                r.append(content_type.as_str());
                r.append("' not in allow-list ");
                let l = debug_list(allowed);
                r.append(l.as_str());
                r
            },
            TaskError::Io(m) => m.clone(),
            TaskError::UnexpectedEvent => owned("Unexpected event"),
        }
    }
}

/// Seconds that must pass between two fetches of a source.
pub const MIN_FETCH_INTERVAL_SECS: i64 = 43_200;

/// A fetch is due unless the last one was less than twelve hours before `now`.
pub fn cadence_allows(now: i64, last_fetched_at: Option<i64>) -> (r: bool)
    ensures
        r == (match last_fetched_at {
            Some(last) => now - last >= 43_200,
            None => true,
        }),
{
    match last_fetched_at {
        Some(last) => (now as i128) - (last as i128) >= 43_200,
        None => true,
    }
}

/// The limits a source's registry entry sets, with at least one concurrent
/// request where concurrency is limited.
pub fn effective_limits(rl: &RateLimitsSpec) -> (r: Limits)
    ensures
        r.requests_per_min == rl.requests_per_min,
        r.bytes_per_min == rl.bytes_per_min,
        r.concurrency == (match rl.concurrency {
            Some(c) => Some(if c < 1 { 1u32 } else { c }),
            None => None,
        }),
{
    let concurrency = match rl.concurrency {
        Some(c) => Some(if c < 1 { 1u32 } else { c }),
        None => None,
    };
    Limits { requests_per_min: rl.requests_per_min, bytes_per_min: rl.bytes_per_min, concurrency }
}

/// The endpoint to fetch: the first, for an enabled source that has one.
pub fn select_endpoint(spec: &SourceSpecV1) -> (r: Result<usize, TaskError>)
    ensures
        !spec.enabled ==> r matches Err(TaskError::SourceDisabled),
        spec.enabled && spec.endpoints@.len() == 0 ==> r matches Err(TaskError::NoEndpoint),
        spec.enabled && spec.endpoints@.len() > 0 ==> r == Ok::<usize, TaskError>(0),
{
    if !spec.enabled {
        return Err(TaskError::SourceDisabled);
    }
    if spec.endpoints.len() == 0 {
        return Err(TaskError::NoEndpoint);
    }
    Ok(0)
}

/// The recorder updates of a fetch outcome, apart from its duration: on a
/// 2xx status a successful request and the payload size, otherwise a failed
/// request.
pub fn fetch_metrics(status: u16, bytes: usize) -> (r: Vec<MetricOp>)
    ensures
        200 <= status <= 299 ==> r@.len() == 2 && op_view(r@[0]) == (MetricType::Counter, "sms_sources_requests_success_total"@, 1u64)
            && !op_is_duration(r@[1]) && op_view(r@[1]) == (MetricType::Histogram, "sms_sources_payload_bytes"@, bytes as u64),
        !(200 <= status <= 299) ==> r@.len() == 1 && op_view(r@[0]) == (MetricType::Counter, "sms_sources_requests_error_total"@, 1u64),
{
    let mut r: Vec<MetricOp> = Vec::new();
    if 200 <= status && status <= 299 {
        r.push(request_success());
        r.push(payload_bytes(bytes));
    } else {
        r.push(request_error());
    }
    r
}

/// The declared payload length: the `Content-Length` header when it parses,
/// the body's length otherwise.
pub fn declared_length(header: Option<&str>, body_len: usize) -> (r: u64)
    ensures
        r == (match header {
            Some(h) => match parse_u64_spec(h@) {
                Some(n) => n,
                None => body_len as u64,
            },
            None => body_len as u64,
        }),
{
    match header {
        Some(h) => match parse_u64(h) {
            Some(n) => n,
            None => body_len as u64,
        },
        None => body_len as u64,
    }
}

/// `base` joined with the relative path `rel` (a separator added unless
/// `base` is empty or already ends with one).
pub open spec fn join_path_spec(base: Seq<char>, rel: Seq<char>) -> Seq<char> {
    if base.len() == 0 {
        rel
    } else if base.last() == '/' {
        base + rel
    } else {
        base + "/"@ + rel
    }
}

/// Joins a relative path onto a base directory.
pub fn join_path(base: &str, rel: &str) -> (r: String)
    ensures
        r@ == join_path_spec(base@, rel@),
{
    let cs = crate::text::chars_of(base);
    let mut r = owned(base);
    if cs.len() == 0 {
        return owned(rel);
    }
    if cs[cs.len() - 1] != '/' {
        r.append("/");
    }
    r.append(rel);
    r
}

/// The envelope submitted for a fetched payload.
pub fn build_submission(
    spec: &SourceSpecV1,
    endpoint: usize,
    content_type: String,
    content_length: u64,
    sha256_hex: String,
    idempotency_key: String,
    status: u16,
    etag: Option<String>,
    last_modified: Option<String>,
    fetched_at: i64,
) -> (r: EnvelopeSubmissionV1)
    requires
        endpoint < spec.endpoints@.len(),
    ensures
        r.envelope_version@ == "1.0.0"@,
        r.source_id@ == spec.source_id@,
        r.idempotency_key == idempotency_key,
        r.payload_meta == (PayloadMeta { mime_type: content_type, size_bytes: content_length, checksum: ChecksumMeta { sha256: sha256_hex } }),
        r.request.url@ == spec.endpoints@[endpoint as int].url@,
        r.request.method@ == spec.endpoints@[endpoint as int].method@,
        r.request.status == Some(status),
        r.request.etag == etag,
        r.request.last_modified == last_modified,
        r.timing == (TimingMeta { fetched_at, gateway_received_at: None }),
        r.legal.license_id@ == spec.policy.license_id@,
{
    EnvelopeSubmissionV1 {
        envelope_version: owned("1.0.0"),
        source_id: spec.source_id.clone(),
        idempotency_key,
        payload_meta: PayloadMeta { mime_type: content_type, size_bytes: content_length, checksum: ChecksumMeta { sha256: sha256_hex } },
        request: RequestMeta {
            url: spec.endpoints[endpoint].url.clone(),
            method: spec.endpoints[endpoint].method.clone(),
            status: Some(status),
            etag,
            last_modified,
        },
        timing: TimingMeta { fetched_at, gateway_received_at: None },
        legal: LegalMeta { license_id: spec.policy.license_id.clone() },
    }
}

/// The result of a gateway run under `data_root`.
pub fn gateway_result(source_id: String, envelope_id: String, payload_bytes: usize, data_root: &str) -> (r: GatewayOnceResult)
    ensures
        r.source_id == source_id,
        r.envelope_id == envelope_id,
        r.payload_bytes == payload_bytes,
        r.ingest_log@ == join_path_spec(data_root@, "ingest_log/ingest.ndjson"@),
        r.cas_root@ == join_path_spec(data_root@, "cas"@),
{
    GatewayOnceResult {
        source_id,
        envelope_id,
        payload_bytes,
        ingest_log: join_path(data_root, "ingest_log/ingest.ndjson"),
        cas_root: join_path(data_root, "cas"),
    }
}

/// A parse run's parameters with their defaults applied.
#[derive(Debug)]
pub struct ParsePlan {
    pub consumer: String,
    pub max: usize,
    pub data_root: String,
    pub output: String,
    pub source_id: Option<String>,
    pub normalize: bool,
    pub quality_gate: bool,
}

/// The parameters of a parse run with defaults (consumer `parser`, 50
/// lines, data root `data`, output `parsed.ndjson`); the quality gate
/// without normalization is refused.
pub fn plan_parse(params: ParseParams) -> (r: Result<ParsePlan, TaskError>)
    ensures
        ({
            let qg = match params.quality_gate { Some(b) => b, None => false };
            let norm = match params.normalize { Some(b) => b, None => false };
            &&& (r is Err) == (qg && !norm)
            &&& (match r {
                Ok(p) => {
                    &&& p.consumer@ == (match params.consumer { Some(c) => c@, None => "parser"@ })
                    &&& p.max == (match params.max { Some(m) => m, None => 50 })
                    &&& p.data_root@ == (match params.data_root { Some(d) => d@, None => "data"@ })
                    &&& p.output@ == (match params.output { Some(o) => o@, None => "parsed.ndjson"@ })
                    &&& p.source_id == params.source_id
                    &&& p.normalize == norm
                    &&& p.quality_gate == qg
                },
                Err(e) => e is QualityGateNeedsNormalize,
            })
        }),
{
    let qg = match params.quality_gate {
        Some(b) => b,
        None => false,
    };
    let norm = match params.normalize {
        Some(b) => b,
        None => false,
    };
    if qg && !norm {
        return Err(TaskError::QualityGateNeedsNormalize);
    }
    Ok(ParsePlan {
        consumer: match params.consumer {
            Some(c) => c,
            None => owned("parser"),
        },
        max: match params.max {
            Some(m) => m,
            None => 50,
        },
        data_root: match params.data_root {
            Some(d) => d,
            None => owned("data"),
        },
        output: match params.output {
            Some(o) => o,
            None => owned("parsed.ndjson"),
        },
        source_id: params.source_id,
        normalize: norm,
        quality_gate: qg,
    })
}

/// The text of an optional string value, empty when absent.
pub open spec fn text_or_empty(s: Option<Seq<char>>) -> Seq<char> {
    match s {
        Some(t) => t,
        None => Seq::empty(),
    }
}

/// The payload reference of an ingest-log line: its `payload_ref`, or that
/// of its `envelope`.
pub open spec fn line_payload_ref(val: Json) -> Option<Seq<char>> {
    match json_str(json_get(val, "payload_ref"@)) {
        Some(s) => Some(s),
        None => match json_get(val, "envelope"@) {
            Some(e) => json_str(json_get(e, "payload_ref"@)),
            None => None,
        },
    }
}

fn str_at(val: &Json, key: &str) -> (r: String)
    ensures
        r@ == text_or_empty(json_str(json_get(*val, key@))),
{
    match val.get(key) {
        Some(v) => match v.as_str() {
            Some(s) => s.clone(),
            None => String::new(),
        },
        None => String::new(),
    }
}

/// The payload reference of a line, empty when it has none.
pub fn payload_ref_of(val: &Json) -> (r: String)
    ensures
        r@ == text_or_empty(line_payload_ref(*val)),
{
    match val.get("payload_ref") {
        Some(Json::Str(s)) => return s.clone(),
        _ => {},
    }
    match val.get("envelope") {
        Some(e) => str_at(e, "payload_ref"),
        None => String::new(),
    }
}

/// The envelope id of a line, empty when it has none.
pub fn line_envelope_id(val: &Json) -> (r: String)
    ensures
        r@ == text_or_empty(json_str(json_get(*val, "envelope_id"@))),
{
    str_at(val, "envelope_id")
}

/// The source of a line's envelope, empty when it has none.
pub fn line_source_id(val: &Json) -> (r: String)
    ensures
        r@ == text_or_empty(match json_get(*val, "envelope"@) {
            Some(e) => json_str(json_get(e, "source_id"@)),
            None => None,
        }),
{
    match val.get("envelope") {
        Some(e) => str_at(e, "source_id"),
        None => String::new(),
    }
}

/// The checksum of a line's payload (`envelope.payload_meta.checksum.sha256`).
pub open spec fn line_checksum(val: Json) -> Option<Seq<char>> {
    match json_get(val, "envelope"@) {
        Some(e) => match json_get(e, "payload_meta"@) {
            Some(pm) => match json_get(pm, "checksum"@) {
                Some(c) => json_str(json_get(c, "sha256"@)),
                None => None,
            },
            None => None,
        },
        None => None,
    }
}

/// A payload reference made from the line's checksum: `cas:sha256:` and the
/// hex digest.
pub fn checksum_payload_ref(val: &Json) -> (r: Option<String>)
    ensures
        opt_text(r) == (match line_checksum(*val) {
            Some(sha) => Some("cas:sha256:"@ + sha),
            None => None,
        }),
{
    let e = match val.get("envelope") {
        Some(e) => e,
        None => return None,
    };
    let pm = match e.get("payload_meta") {
        Some(pm) => pm,
        None => return None,
    };
    let c = match pm.get("checksum") {
        Some(c) => c,
        None => return None,
    };
    match c.get("sha256") {
        Some(Json::Str(sha)) => {
            let mut r = owned("cas:sha256:");
            r.append(sha.as_str());
            Some(r)
        },
        _ => None,
    }
}

/// The view of an optional string.
pub open spec fn opt_text(o: Option<String>) -> Option<Seq<char>> {
    match o {
        Some(s) => Some(s@),
        None => None,
    }
}


/// The envelope a deduplicated line stands for: its `dedupe_of`.
pub open spec fn line_dedupe_of(val: Json) -> Option<Seq<char>> {
    json_str(json_get(val, "dedupe_of"@))
}

/// The payload reference a line is parsed from: its own; when it has none
/// and names, by `dedupe_of`, an earlier line that was found (`first`),
/// that line's reference where it has one; and when still none, the one
/// made from its checksum; else empty.
pub open spec fn resolved_payload_ref(val: Json, first: Option<Json>) -> Seq<char> {
    let own = text_or_empty(line_payload_ref(val));
    let after_dedupe = if own.len() > 0 {
        own
    } else {
        match (line_dedupe_of(val), first) {
            (Some(_), Some(o)) => match line_payload_ref(o) {
                Some(pr) => pr,
                None => own,
            },
            _ => own,
        }
    };
    if after_dedupe.len() > 0 {
        after_dedupe
    } else {
        match line_checksum(val) {
            Some(sha) => "cas:sha256:"@ + sha,
            None => after_dedupe,
        }
    }
}

/// The `dedupe_of` of a line, which the run looks up in the ingest log when
/// the line has no payload reference of its own.
pub fn dedupe_of_line(val: &Json) -> (r: Option<String>)
    ensures
        opt_text(r) == line_dedupe_of(*val),
{
    match val.get("dedupe_of") {
        Some(Json::Str(s)) => Some(s.clone()),
        _ => None,
    }
}

/// The payload reference of a line, if it has one.
pub fn line_payload_ref_of(val: &Json) -> (r: Option<String>)
    ensures
        opt_text(r) == line_payload_ref(*val),
{
    match val.get("payload_ref") {
        Some(Json::Str(s)) => return Some(s.clone()),
        _ => {},
    }
    match val.get("envelope") {
        Some(e) => match e.get("payload_ref") {
            Some(Json::Str(s)) => Some(s.clone()),
            _ => None,
        },
        None => None,
    }
}

/// Whether a log line (`None` when it is not JSON) is the envelope `id`.
pub open spec fn line_is_envelope(l: Option<Json>, id: Seq<char>) -> bool {
    l matches Some(v) && text_or_empty(json_str(json_get(v, "envelope_id"@))) == id
}

/// The first log line that is the envelope `id`, by position.
pub fn find_envelope(lines: &Vec<Option<Json>>, id: &str) -> (r: Option<usize>)
    ensures
        match r {
            Some(i) => i < lines@.len() && line_is_envelope(lines@[i as int], id@)
                && forall|j: int| 0 <= j < i ==> !line_is_envelope(#[trigger] lines@[j], id@),
            None => forall|j: int| 0 <= j < lines@.len() ==> !line_is_envelope(#[trigger] lines@[j], id@),
        },
{
    let mut i: usize = 0;
    while i < lines.len()
        invariant
            i <= lines@.len(),
            forall|j: int| 0 <= j < i ==> !line_is_envelope(#[trigger] lines@[j], id@),
        decreases lines@.len() - i,
    {
        match &lines[i] {
            Some(v) => {
                let e = line_envelope_id(v);
                if str_eq(e.as_str(), id) {
                    return Some(i);
                }
            },
            None => {},
        }
        i = i + 1;
    }
    None
}

/// The place of a `cas:sha256:<hex>` payload in the payload store,
/// `sha256/<first two hex digits>/<next two>/<hex>`; none for another
/// reference or fewer than four digits.
pub open spec fn cas_key(payload_ref: Seq<char>) -> Option<Seq<char>> {
    if payload_ref.len() >= 15 && payload_ref.subrange(0, 11) == "cas:sha256:"@ {
        let h = payload_ref.subrange(11, payload_ref.len() as int);
        Some("sha256/"@ + h.subrange(0, 2) + "/"@ + h.subrange(2, 4) + "/"@ + h)
    } else {
        None
    }
}

/// The place of a payload in the payload store.
pub fn cas_key_of(payload_ref: &str) -> (r: Option<String>)
    ensures
        opt_text(r) == cas_key(payload_ref@),
{
    proof {
        reveal_strlit("cas:sha256:");
        reveal_strlit("sha256/");
        reveal_strlit("/");
    }
    let cs = crate::text::chars_of(payload_ref);
    let prefix = crate::text::chars_of("cas:sha256:");
    if cs.len() < 15 {
        return None;
    }
    let mut k: usize = 0;
    while k < 11
        invariant
            k <= 11,
            cs@ == payload_ref@,
            prefix@ == "cas:sha256:"@,
            prefix@.len() == 11,
            cs@.len() >= 15,
            forall|j: int| 0 <= j < k ==> cs@[j] == prefix@[j],
        decreases 11 - k,
    {
        if cs[k] != prefix[k] {
            assert(cs@.subrange(0, 11)[k as int] != "cas:sha256:"@[k as int]);
            return None;
        }
        k = k + 1;
    }
    assert(cs@.subrange(0, 11) =~= "cas:sha256:"@);
    let mut out: Vec<char> = Vec::new();
    let ghost h = cs@.subrange(11, cs@.len() as int);
    out.push('s');
    out.push('h');
    out.push('a');
    out.push('2');
    out.push('5');
    out.push('6');
    out.push('/');
    out.push(cs[11]);
    out.push(cs[12]);
    out.push('/');
    out.push(cs[13]);
    out.push(cs[14]);
    out.push('/');
    let ghost head = out@;
    assert(head =~= "sha256/"@ + h.subrange(0, 2) + "/"@ + h.subrange(2, 4) + "/"@);
    let mut i: usize = 11;
    while i < cs.len()
        invariant
            11 <= i <= cs@.len(),
            cs@ == payload_ref@,
            h == cs@.subrange(11, cs@.len() as int),
            out@ == head + cs@.subrange(11, i as int),
        decreases cs@.len() - i,
    {
        out.push(cs[i]);
        assert(out@ =~= head + cs@.subrange(11, i + 1));
        i = i + 1;
    }
    Some(crate::text::from_chars(&out))
}

/// The payload reference a line is parsed from, given the earlier line its
/// `dedupe_of` names where that was found in the ingest log.
pub fn resolve_payload_ref(val: &Json, first: Option<&Json>) -> (r: String)
    ensures
        r@ == resolved_payload_ref(*val, match first { Some(o) => Some(*o), None => None }),
{
    let own = payload_ref_of(val);
    let after = if own.unicode_len() > 0 {
        own
    } else {
        match (dedupe_of_line(val), first) {
            (Some(_), Some(o)) => match line_payload_ref_of(o) {
                Some(pr) => pr,
                None => own,
            },
            _ => own,
        }
    };
    if after.unicode_len() > 0 {
        return after;
    }
    match checksum_payload_ref(val) {
        Some(c) => c,
        None => after,
    }
}
/// What becomes of one ingest-log line.
#[derive(Debug, Clone, Copy, PartialEq, Eq, Structural)]
pub enum LineOutcome {
    /// The line is not JSON.
    InvalidJson,
    /// Its source is not the one asked for.
    Filtered,
    /// It has no payload reference or no source.
    MissingFields,
    /// Its payload parsed into this many records.
    Parsed(usize),
    /// Its payload did not parse.
    ParseFailed,
}

/// Whether a line with this source and payload reference is parsed,
/// filtered out for another source, or skipped for missing fields.
pub fn line_outcome_before_parse(source_id: &str, payload_ref: &str, filter: &Option<String>) -> (r: Option<LineOutcome>)
    ensures
        r == (match filter {
            Some(f) if f@ != source_id@ => Some(LineOutcome::Filtered),
            _ => if payload_ref@.len() == 0 || source_id@.len() == 0 {
                Some(LineOutcome::MissingFields)
            } else {
                None::<LineOutcome>
            },
        }),
{
    if let Some(f) = filter {
        if !str_eq(f.as_str(), source_id) {
            return Some(LineOutcome::Filtered);
        }
    }
    if payload_ref.unicode_len() == 0 || source_id.unicode_len() == 0 {
        return Some(LineOutcome::MissingFields);
    }
    None
}

/// Running totals of a parse run.
#[derive(Debug, Clone, Copy, PartialEq, Eq, Structural)]
pub struct ParseTally {
    pub seen: usize,
    pub filtered_out: usize,
    pub empty_record_envelopes: usize,
    pub written_records: usize,
}

/// The totals after one more line: every line is seen; a filtered line is
/// counted as such; a parse that yields no record counts as an empty
/// envelope, and a failed parse counts twice; records parsed are written.
pub open spec fn tally_step(t: ParseTally, o: LineOutcome) -> ParseTally {
    let seen = ParseTally { seen: (t.seen + 1) as usize, ..t };
    match o {
        LineOutcome::InvalidJson | LineOutcome::MissingFields => seen,
        LineOutcome::Filtered => ParseTally { filtered_out: (t.filtered_out + 1) as usize, ..seen },
        LineOutcome::Parsed(n) => ParseTally {
            empty_record_envelopes: (if n == 0 { t.empty_record_envelopes + 1 } else { t.empty_record_envelopes as int }) as usize,
            written_records: (t.written_records + n) as usize,
            ..seen
        },
        LineOutcome::ParseFailed => ParseTally { empty_record_envelopes: (t.empty_record_envelopes + 2) as usize, ..seen },
    }
}

impl ParseTally {
    /// Nothing seen yet.
    pub fn new() -> (r: Self)
        ensures
            r == (ParseTally { seen: 0, filtered_out: 0, empty_record_envelopes: 0, written_records: 0 }),
    {
        ParseTally { seen: 0, filtered_out: 0, empty_record_envelopes: 0, written_records: 0 }
    }

    /// Counts one more line.
    pub fn record(&mut self, o: LineOutcome)
        requires
            old(self).seen < usize::MAX,
            old(self).filtered_out < usize::MAX,
            old(self).empty_record_envelopes < usize::MAX - 1,
            o matches LineOutcome::Parsed(n) ==> old(self).written_records + n <= usize::MAX,
        ensures
            *final(self) == tally_step(*old(self), o),
    {
        self.seen = self.seen + 1;
        match o {
            LineOutcome::InvalidJson | LineOutcome::MissingFields => {},
            LineOutcome::Filtered => {
                self.filtered_out = self.filtered_out + 1;
            },
            LineOutcome::Parsed(n) => {
                if n == 0 {
                    self.empty_record_envelopes = self.empty_record_envelopes + 1;
                }
                self.written_records = self.written_records + n;
            },
            LineOutcome::ParseFailed => {
                self.empty_record_envelopes = self.empty_record_envelopes + 2;
            },
        }
    }

    /// The summary of the run, written to `output_file`.
    pub fn summary(&self, output_file: String) -> (r: ParseResultSummary)
        ensures
            r.seen == self.seen,
            r.filtered_out == self.filtered_out,
            r.empty_record_envelopes == self.empty_record_envelopes,
            r.written_records == self.written_records,
            r.output_file == output_file,
    {
        ParseResultSummary {
            seen: self.seen,
            filtered_out: self.filtered_out,
            empty_record_envelopes: self.empty_record_envelopes,
            written_records: self.written_records,
            output_file,
        }
    }
}

/// Every line is seen once, and only parsed lines add written records.
pub proof fn lemma_tally_counts_lines(t: ParseTally, o: LineOutcome)
    requires
        t.seen < usize::MAX,
        t.filtered_out < usize::MAX,
        t.empty_record_envelopes < usize::MAX - 1,
        o matches LineOutcome::Parsed(n) ==> t.written_records + n <= usize::MAX,
    ensures
        tally_step(t, o).seen == t.seen + 1,
        tally_step(t, o).written_records == t.written_records + (match o {
            LineOutcome::Parsed(n) => n as int,
            _ => 0,
        }),
        tally_step(t, o).filtered_out == t.filtered_out + (if o is Filtered { 1int } else { 0 }),
{
}


/// Where a gateway run stands.
#[derive(Debug)]
pub enum GatewayState {
    /// Not started: the source, whether the cadence is bypassed, the data root.
    Start { source_id: Option<String>, bypass: bool, data_root: Option<String> },
    /// Waiting for the source's registry entry.
    AwaitSpec { bypass: bool, data_root: String },
    /// Waiting for when the source was last fetched, and the time now.
    AwaitLastFetch { spec: SourceSpecV1, data_root: String },
    /// Waiting for the fetch of the first endpoint.
    AwaitFetch { spec: SourceSpecV1, data_root: String },
    /// Waiting for the idempotency key of the fetched payload.
    AwaitKey { spec: SourceSpecV1, data_root: String, fetch: FetchOutcome, content_type: String, content_length: u64, sha256: String },
    /// Waiting for the gateway to accept the submitted envelope.
    AwaitAccept { source_id: String, payload_bytes: usize, data_root: String },
    /// The run is over.
    Finished,
}

/// What a fetch returned.
#[derive(Debug)]
pub struct FetchOutcome {
    pub status: u16,
    pub content_type: Option<String>,
    pub content_length: Option<String>,
    pub etag: Option<String>,
    pub last_modified: Option<String>,
    pub body: Vec<u8>,
    /// Nanoseconds the request took.
    pub nanos: u64,
    /// Milliseconds since the Unix epoch.
    pub fetched_at: i64,
}

/// What the outside work reports.
#[derive(Debug)]
pub enum GatewayEvent {
    /// The run is started.
    Begin,
    /// The registry entry was loaded, or why it could not be.
    SpecLoaded(Result<SourceSpecV1, String>),
    /// When the source was last fetched (seconds since the epoch), and now.
    LastFetched { last: Option<i64>, now: i64 },
    /// The fetch's response.
    Fetched(FetchOutcome),
    /// The payload's idempotency key.
    KeyDerived(String),
    /// The envelope was accepted under this id.
    Accepted { envelope_id: String },
    /// Outside work failed.
    Failed(String),
}

/// What the outside work is to do next.
#[derive(Debug)]
pub enum GatewayAction {
    /// Load the registry entry of the source.
    LoadSpec { source_id: String },
    /// Read when the source was last fetched.
    ReadLastFetch { source_id: String },
    /// Fetch the endpoint under the rate limits.
    Fetch { url: String, method: String, limits: Limits },
    /// Derive the idempotency key of the payload.
    DeriveKey { source_id: String, url: String, etag: Option<String>, last_modified: Option<String>, sha256: String },
    /// Submit the envelope with the payload to the gateway, and record the
    /// source as fetched.
    Submit { envelope: EnvelopeSubmissionV1, body: Vec<u8> },
    /// The run ends with this result.
    Finish(Result<GatewayOnceResult, TaskError>),
}

/// The media type of a response: its header, or `application/octet-stream`.
pub open spec fn content_type_of(ct: Option<String>) -> Seq<char> {
    match ct {
        Some(t) => t@,
        None => "application/octet-stream"@,
    }
}

/// The declared length of a fetched payload.
pub open spec fn declared_length_of(f: FetchOutcome) -> u64 {
    match f.content_length {
        Some(h) => match parse_u64_spec(h@) {
            Some(n) => n,
            None => f.body@.len() as u64,
        },
        None => f.body@.len() as u64,
    }
}

/// The states past loading hold an entry with an endpoint.
pub open spec fn gateway_state_ok(s: GatewayState) -> bool {
    match s {
        GatewayState::AwaitLastFetch { spec, .. } => spec.endpoints@.len() > 0,
        GatewayState::AwaitFetch { spec, .. } => spec.endpoints@.len() > 0,
        GatewayState::AwaitKey { spec, .. } => spec.endpoints@.len() > 0,
        _ => true,
    }
}

/// Whether the run ends with this error.
pub open spec fn finishes_with(a: GatewayAction, s: GatewayState, e: TaskError) -> bool {
    s is Finished && a == GatewayAction::Finish(Err(e))
}

/// One step of a gateway run: from where it stands and what the outside work
/// reported, where it stands next, what to do, and the metric updates.
/// A run loads the registry entry (default source `blue_moon`, data root
/// `data`); refuses a disabled source or one without endpoints; unless the
/// cadence is bypassed, skips a source fetched less than twelve hours ago,
/// before any fetch; fetches the first endpoint under the entry's limits;
/// refuses a payload whose declared length or media type the entry does not
/// allow; has the payload's key derived; and submits the envelope built from
/// the fetch.
#[verifier::rlimit(60)]
pub fn gateway_step(state: GatewayState, event: GatewayEvent) -> (r: (GatewayState, GatewayAction, Vec<MetricOp>))
    requires
        gateway_state_ok(state),
    ensures
        gateway_state_ok(r.0),
        match (state, event) {
            (GatewayState::Start { source_id, bypass, data_root }, GatewayEvent::Begin) => {
                &&& r.0 == (GatewayState::AwaitSpec { bypass, data_root: r.0->AwaitSpec_data_root })
                &&& r.0->AwaitSpec_data_root@ == (match data_root { Some(d) => d@, None => "data"@ })
                &&& r.1 matches GatewayAction::LoadSpec { source_id: sid } && sid@ == (match source_id { Some(x) => x@, None => "blue_moon"@ })
                &&& r.2@.len() == 0
            },
            (GatewayState::AwaitSpec { bypass, data_root }, GatewayEvent::SpecLoaded(loaded)) => match loaded {
                Err(e) => finishes_with(r.1, r.0, TaskError::RegistryLoadFailed(e)) && r.2@.len() == 1
                    && op_view(r.2@[0]) == (MetricType::Counter, "sms_sources_registry_loads_error_total"@, 1u64),
                Ok(spec) => {
                    &&& r.2@.len() == 1 && op_view(r.2@[0]) == (MetricType::Counter, "sms_sources_registry_loads_success_total"@, 1u64)
                    &&& !spec.enabled ==> finishes_with(r.1, r.0, TaskError::SourceDisabled)
                    &&& spec.enabled && spec.endpoints@.len() == 0 ==> finishes_with(r.1, r.0, TaskError::NoEndpoint)
                    &&& spec.enabled && spec.endpoints@.len() > 0 && !bypass ==> r.0 == (GatewayState::AwaitLastFetch { spec, data_root })
                        && (r.1 matches GatewayAction::ReadLastFetch { source_id } && source_id@ == spec.source_id@)
                    &&& spec.enabled && spec.endpoints@.len() > 0 && bypass ==> r.0 == (GatewayState::AwaitFetch { spec, data_root })
                        && (r.1 matches GatewayAction::Fetch { url, method, limits } && url@ == spec.endpoints@[0].url@
                            && method@ == spec.endpoints@[0].method@ && limits.requests_per_min == spec.rate_limits.requests_per_min
                            && limits.bytes_per_min == spec.rate_limits.bytes_per_min)
                },
            },
            (GatewayState::AwaitLastFetch { spec, data_root }, GatewayEvent::LastFetched { last, now }) => {
                &&& r.2@.len() == 0
                &&& !(match last { Some(l) => now - l >= 43_200, None => true }) ==> finishes_with(r.1, r.0, TaskError::CadenceSkip)
                &&& (match last { Some(l) => now - l >= 43_200, None => true }) ==> r.0 == (GatewayState::AwaitFetch { spec, data_root })
                    && (r.1 matches GatewayAction::Fetch { url, method, limits } && url@ == spec.endpoints@[0].url@
                        && method@ == spec.endpoints@[0].method@ && limits.requests_per_min == spec.rate_limits.requests_per_min
                        && limits.bytes_per_min == spec.rate_limits.bytes_per_min)
            },
            (GatewayState::AwaitFetch { spec, data_root }, GatewayEvent::Fetched(f)) => {
                let ct = content_type_of(f.content_type);
                let len = declared_length_of(f);
                &&& (200 <= f.status <= 299 ==> r.2@.len() == 3
                    && op_view(r.2@[0]) == (MetricType::Counter, "sms_sources_requests_success_total"@, 1u64)
                    && op_is_duration(r.2@[1]) && op_view(r.2@[1]) == (MetricType::Histogram, "sms_sources_request_duration_seconds"@, f.nanos)
                    && op_view(r.2@[2]) == (MetricType::Histogram, "sms_sources_payload_bytes"@, f.body@.len() as u64))
                &&& (!(200 <= f.status <= 299) ==> r.2@.len() == 1
                    && op_view(r.2@[0]) == (MetricType::Counter, "sms_sources_requests_error_total"@, 1u64))
                &&& len > spec.content.max_payload_size_bytes ==> r.0 is Finished
                    && (r.1 matches GatewayAction::Finish(Err(TaskError::Rejected(PayloadRejection::TooLarge { size, max })))
                        && size == len && max == spec.content.max_payload_size_bytes)
                &&& len <= spec.content.max_payload_size_bytes && !mime_allowed(spec.content.allowed_mime_types@, mime_base(ct)) ==> r.0 is Finished
                    && (r.1 matches GatewayAction::Finish(Err(TaskError::Rejected(PayloadRejection::MimeNotAllowed { content_type, allowed })))
                        && content_type@ == ct && allowed@.map_values(|x: String| x@) == spec.content.allowed_mime_types@.map_values(|x: String| x@))
                &&& len <= spec.content.max_payload_size_bytes && mime_allowed(spec.content.allowed_mime_types@, mime_base(ct)) ==> {
                    &&& r.0 matches GatewayState::AwaitKey { spec: s2, data_root: d2, fetch: f2, content_type: c2, content_length: l2, sha256: h2 }
                        && s2 == spec && d2 == data_root && f2 == f && c2@ == ct && l2 == len && h2@ == hex_spec(sha256_of(f.body@))
                    &&& r.1 matches GatewayAction::DeriveKey { source_id, url, etag, last_modified, sha256 }
                        && source_id@ == spec.source_id@ && url@ == spec.endpoints@[0].url@ && crate::text::opt_view(etag) == crate::text::opt_view(f.etag)
                        && crate::text::opt_view(last_modified) == crate::text::opt_view(f.last_modified) && sha256@ == hex_spec(sha256_of(f.body@))
                }
            },
            (GatewayState::AwaitKey { spec, data_root, fetch, content_type, content_length, sha256 }, GatewayEvent::KeyDerived(key)) => {
                &&& r.2@.len() == 0
                &&& r.0 == (GatewayState::AwaitAccept { source_id: r.0->AwaitAccept_source_id, payload_bytes: fetch.body@.len() as usize, data_root })
                &&& r.0->AwaitAccept_source_id@ == spec.source_id@
                &&& r.1 matches GatewayAction::Submit { envelope: env, body } && body == fetch.body && {
                    &&& env.envelope_version@ == "1.0.0"@
                    &&& env.source_id@ == spec.source_id@
                    &&& env.idempotency_key == key
                    &&& env.payload_meta.mime_type == content_type
                    &&& env.payload_meta.size_bytes == content_length
                    &&& env.payload_meta.checksum.sha256 == sha256
                    &&& env.request.url@ == spec.endpoints@[0].url@
                    &&& env.request.method@ == spec.endpoints@[0].method@
                    &&& env.request.status == Some(fetch.status)
                    &&& env.request.etag == fetch.etag
                    &&& env.request.last_modified == fetch.last_modified
                    &&& env.timing.fetched_at == fetch.fetched_at
                    &&& env.timing.gateway_received_at.is_none()
                    &&& env.legal.license_id@ == spec.policy.license_id@
                }
            },
            (GatewayState::AwaitAccept { source_id, payload_bytes, data_root }, GatewayEvent::Accepted { envelope_id }) => {
                &&& r.0 is Finished
                &&& r.2@.len() == 0
                &&& r.1 matches GatewayAction::Finish(Ok(res)) && res.source_id == source_id && res.envelope_id == envelope_id
                    && res.payload_bytes == payload_bytes
                    && res.ingest_log@ == join_path_spec(data_root@, "ingest_log/ingest.ndjson"@)
                    && res.cas_root@ == join_path_spec(data_root@, "cas"@)
            },
            (GatewayState::Start { .. }, GatewayEvent::Failed(m)) => finishes_with(r.1, r.0, TaskError::Io(m)) && r.2@.len() == 0,
            (GatewayState::AwaitSpec { .. }, GatewayEvent::Failed(m)) => finishes_with(r.1, r.0, TaskError::Io(m)) && r.2@.len() == 0,
            (GatewayState::AwaitLastFetch { .. }, GatewayEvent::Failed(m)) => finishes_with(r.1, r.0, TaskError::Io(m)) && r.2@.len() == 0,
            (GatewayState::AwaitFetch { .. }, GatewayEvent::Failed(m)) => finishes_with(r.1, r.0, TaskError::Io(m)) && r.2@.len() == 0,
            (GatewayState::AwaitKey { .. }, GatewayEvent::Failed(m)) => finishes_with(r.1, r.0, TaskError::Io(m)) && r.2@.len() == 0,
            (GatewayState::AwaitAccept { .. }, GatewayEvent::Failed(m)) => finishes_with(r.1, r.0, TaskError::Io(m)) && r.2@.len() == 0,
            _ => finishes_with(r.1, r.0, TaskError::UnexpectedEvent) && r.2@.len() == 0,
        },
{
    match (state, event) {
        (GatewayState::Start { source_id, bypass, data_root }, GatewayEvent::Begin) => {
            let sid = match source_id {
                Some(x) => x,
                None => owned("blue_moon"),
            };
            let root = match data_root {
                Some(d) => d,
                None => owned("data"),
            };
            (GatewayState::AwaitSpec { bypass, data_root: root }, GatewayAction::LoadSpec { source_id: sid }, Vec::new())
        },
        (GatewayState::AwaitSpec { bypass, data_root }, GatewayEvent::SpecLoaded(loaded)) => {
            let mut ops: Vec<MetricOp> = Vec::new();
            match loaded {
                Err(e) => {
                    ops.push(registry_load_error());
                    (GatewayState::Finished, GatewayAction::Finish(Err(TaskError::RegistryLoadFailed(e))), ops)
                },
                Ok(spec) => {
                    ops.push(registry_load_success());
                    match select_endpoint(&spec) {
                        Err(e) => (GatewayState::Finished, GatewayAction::Finish(Err(e)), ops),
                        Ok(_) => {
                            if bypass {
                                let action = fetch_action(&spec);
                                (GatewayState::AwaitFetch { spec, data_root }, action, ops)
                            } else {
                                let sid = spec.source_id.clone();
                                (GatewayState::AwaitLastFetch { spec, data_root }, GatewayAction::ReadLastFetch { source_id: sid }, ops)
                            }
                        },
                    }
                },
            }
        },
        (GatewayState::AwaitLastFetch { spec, data_root }, GatewayEvent::LastFetched { last, now }) => {
            if cadence_allows(now, last) {
                let action = fetch_action(&spec);
                (GatewayState::AwaitFetch { spec, data_root }, action, Vec::new())
            } else {
                (GatewayState::Finished, GatewayAction::Finish(Err(TaskError::CadenceSkip)), Vec::new())
            }
        },
        (GatewayState::AwaitFetch { spec, data_root }, GatewayEvent::Fetched(f)) => {
            let mut ops: Vec<MetricOp> = Vec::new();
            if 200 <= f.status && f.status <= 299 {
                ops.push(request_success());
                ops.push(request_duration(f.nanos));
                ops.push(payload_bytes(f.body.len()));
            } else {
                ops.push(request_error());
            }
            let content_type = match &f.content_type {
                Some(t) => t.clone(),
                None => owned("application/octet-stream"),
            };
            let len = match &f.content_length {
                Some(h) => declared_length(Some(h.as_str()), f.body.len()),
                None => declared_length(None, f.body.len()),
            };
            match check_payload(content_type.as_str(), len, &spec.content) {
                Err(rej) => (GatewayState::Finished, GatewayAction::Finish(Err(TaskError::Rejected(rej))), ops),
                Ok(()) => {
                    let sha = sha256_hex(f.body.as_slice());
                    let action = GatewayAction::DeriveKey {
                        source_id: spec.source_id.clone(),
                        url: spec.endpoints[0].url.clone(),
                        etag: crate::text::opt_clone(&f.etag),
                        last_modified: crate::text::opt_clone(&f.last_modified),
                        sha256: sha.clone(),
                    };
                    (GatewayState::AwaitKey { spec, data_root, fetch: f, content_type, content_length: len, sha256: sha }, action, ops)
                },
            }
        },
        (GatewayState::AwaitKey { spec, data_root, fetch, content_type, content_length, sha256 }, GatewayEvent::KeyDerived(key)) => {
            let env = build_submission(&spec, 0, content_type, content_length, sha256, key, fetch.status, fetch.etag, fetch.last_modified, fetch.fetched_at);
            let n = fetch.body.len();
            (
                GatewayState::AwaitAccept { source_id: spec.source_id.clone(), payload_bytes: n, data_root },
                GatewayAction::Submit { envelope: env, body: fetch.body },
                Vec::new(),
            )
        },
        (GatewayState::AwaitAccept { source_id, payload_bytes, data_root }, GatewayEvent::Accepted { envelope_id }) => {
            let res = gateway_result(source_id, envelope_id, payload_bytes, data_root.as_str());
            (GatewayState::Finished, GatewayAction::Finish(Ok(res)), Vec::new())
        },
        (GatewayState::Finished, _) => (GatewayState::Finished, GatewayAction::Finish(Err(TaskError::UnexpectedEvent)), Vec::new()),
        (_, GatewayEvent::Failed(m)) => (GatewayState::Finished, GatewayAction::Finish(Err(TaskError::Io(m))), Vec::new()),
        _ => (GatewayState::Finished, GatewayAction::Finish(Err(TaskError::UnexpectedEvent)), Vec::new()),
    }
}

/// The fetch of a source's first endpoint under its limits.
fn fetch_action(spec: &SourceSpecV1) -> (a: GatewayAction)
    requires
        spec.endpoints@.len() > 0,
    ensures
        a matches GatewayAction::Fetch { url, method, limits } && url@ == spec.endpoints@[0].url@
            && method@ == spec.endpoints@[0].method@ && limits.requests_per_min == spec.rate_limits.requests_per_min
            && limits.bytes_per_min == spec.rate_limits.bytes_per_min
            && limits.concurrency == (match spec.rate_limits.concurrency {
                Some(c) => Some(if c < 1 { 1u32 } else { c }),
                None => None,
            }),
{
    GatewayAction::Fetch {
        url: spec.endpoints[0].url.clone(),
        method: spec.endpoints[0].method.clone(),
        limits: effective_limits(&spec.rate_limits),
    }
}

} // verus!
