//! Envelopes: what a fetch submits to the gateway, and what the gateway
//! stamps on it. Times are milliseconds since the Unix epoch.

use vstd::prelude::*;

verus! {

/// The SHA-256 of a payload, as lowercase hex.
#[derive(Debug)]
pub struct ChecksumMeta {
    pub sha256: String,
}

/// What a payload is: its type, size and checksum.
#[derive(Debug)]
pub struct PayloadMeta {
    pub mime_type: String,
    pub size_bytes: u64,
    pub checksum: ChecksumMeta,
}

/// The request that fetched a payload.
#[derive(Debug)]
pub struct RequestMeta {
    pub url: String,
    pub method: String,
    pub status: Option<u16>,
    pub etag: Option<String>,
    pub last_modified: Option<String>,
}

/// When a payload was fetched and received.
#[derive(Debug)]
pub struct TimingMeta {
    pub fetched_at: i64,
    pub gateway_received_at: Option<i64>,
}

/// The license a payload is used under.
#[derive(Debug)]
pub struct LegalMeta {
    pub license_id: String,
}

/// A fetched payload's envelope as submitted.
#[derive(Debug)]
pub struct EnvelopeSubmissionV1 {
    pub envelope_version: String,
    pub source_id: String,
    pub idempotency_key: String,
    pub payload_meta: PayloadMeta,
    pub request: RequestMeta,
    pub timing: TimingMeta,
    pub legal: LegalMeta,
}

/// An envelope as the gateway accepted it.
#[derive(Debug)]
pub struct StampedEnvelopeV1 {
    pub envelope_version: String,
    pub envelope_id: String,
    pub accepted_at: i64,
    pub payload_ref: String,
    pub dedupe_of: Option<String>,
    pub envelope: EnvelopeSubmissionV1,
}

} // verus!
