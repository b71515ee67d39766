//! Cataloging: change detection between proposed and stored entities, and
//! the candidates that persistence acts on.

pub mod candidate;
pub mod catalogger;
pub mod changes;
pub mod event_handler;
pub mod idempotency;
pub mod mapper;
pub mod provenance;
