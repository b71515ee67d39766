//! The gateway: deduplication of envelopes by idempotency key and the
//! stamp it puts on an accepted envelope.

use crate::ingestion::envelope::{EnvelopeSubmissionV1, StampedEnvelopeV1, TimingMeta};
use crate::text::{owned, str_eq};
use vstd::prelude::*;
use vstd::string::*;

verus! {

/// The gateway over a data root (payload store and ingest log below it).
pub struct Gateway {
    pub root: String,
}

/// What the gateway does with a submitted envelope.
#[derive(Debug)]
pub enum AcceptPlan {
    /// Record a duplicate of the envelope already accepted under this id.
    Deduplicate { existing_id: String },
    /// Store the payload and record the envelope.
    Store,
}

/// The lowercase of an ASCII letter; any other character unchanged.
pub open spec fn ascii_lower(c: char) -> char {
    if 'A' <= c <= 'Z' {
        ((c as u32) + 32) as char
    } else {
        c
    }
}

/// Equal up to ASCII case (`str::eq_ignore_ascii_case`).
pub open spec fn eq_ignore_ascii_case_spec(a: Seq<char>, b: Seq<char>) -> bool {
    a.len() == b.len() && forall|i: int| 0 <= i < a.len() ==> ascii_lower(#[trigger] a[i]) == ascii_lower(b[i])
}

fn ascii_lower_code(c: char) -> (r: u32)
    ensures
        r == ascii_lower(c) as u32,
{
    if 'A' <= c && c <= 'Z' {
        (c as u32) + 32
    } else {
        c as u32
    }
}

/// Whether two strings are equal after mapping ASCII letters to lowercase.
pub fn eq_ignore_ascii_case(a: &str, b: &str) -> (r: bool)
    ensures
        r == eq_ignore_ascii_case_spec(a@, b@),
{
    let xs = crate::text::chars_of(a);
    let ys = crate::text::chars_of(b);
    if xs.len() != ys.len() {
        return false;
    }
    let mut i: usize = 0;
    while i < xs.len()
        invariant
            xs@ == a@,
            ys@ == b@,
            xs@.len() == ys@.len(),
            i <= xs@.len(),
            forall|j: int| 0 <= j < i ==> ascii_lower(#[trigger] a@[j]) == ascii_lower(b@[j]),
        decreases xs@.len() - i,
    {
        let x = ascii_lower_code(xs[i]);
        let y = ascii_lower_code(ys[i]);
        proof {
            vstd::utf8::char_u32_cast(ascii_lower(xs@[i as int]), x);
            vstd::utf8::char_u32_cast(ascii_lower(ys@[i as int]), y);
        }
        if x != y {
            return false;
        }
        i = i + 1;
    }
    true
}

/// Whether a setting of `SMS_BYPASS_CADENCE` turns the cadence check off:
/// `1`, or `true` in any case.
pub fn bypass_setting(value: Option<&str>) -> (r: bool)
    ensures
        r == (match value {
            Some(v) => v@ == "1"@ || eq_ignore_ascii_case_spec(v@, "true"@),
            None => false,
        }),
{
    match value {
        Some(v) => str_eq(v, "1") || eq_ignore_ascii_case(v, "true"),
        None => false,
    }
}

/// Deduplicate when the idempotency key is already known and the cadence
/// is not bypassed; store otherwise.
pub fn accept_plan(bypass_cadence: bool, existing: Option<String>) -> (r: AcceptPlan)
    ensures
        match (bypass_cadence, existing) {
            (false, Some(id)) => (r matches AcceptPlan::Deduplicate { existing_id } && existing_id == id),
            _ => r is Store,
        },
{
    if bypass_cadence {
        return AcceptPlan::Store;
    }
    match existing {
        Some(id) => AcceptPlan::Deduplicate { existing_id: id },
        None => AcceptPlan::Store,
    }
}

/// The stamp of an accepted envelope: its version, the new envelope id, the
/// acceptance time (also its received time), where its payload is stored
/// (empty for a duplicate) and what it duplicates.
pub fn stamp_envelope(
    env: EnvelopeSubmissionV1,
    envelope_id: String,
    accepted_at: i64,
    payload_ref: String,
    dedupe_of: Option<String>,
) -> (r: StampedEnvelopeV1)
    ensures
        r.envelope_version@ == env.envelope_version@,
        r.envelope_id == envelope_id,
        r.accepted_at == accepted_at,
        r.payload_ref == payload_ref,
        r.dedupe_of == dedupe_of,
        r.envelope == (EnvelopeSubmissionV1 {
            timing: TimingMeta { gateway_received_at: Some(accepted_at), ..env.timing },
            ..env
        }),
{
    let version = env.envelope_version.clone();
    let timing = TimingMeta { fetched_at: env.timing.fetched_at, gateway_received_at: Some(accepted_at) };
    let envelope = EnvelopeSubmissionV1 { timing, ..env };
    StampedEnvelopeV1 { envelope_version: version, envelope_id, accepted_at, payload_ref, dedupe_of, envelope }
}

} // verus!
