//! Ingestion: envelopes, source registry entries, the gateway's decisions
//! and request rate limits.

pub mod envelope;
pub mod gateway;
pub mod rate_limiter;
pub mod registry;
