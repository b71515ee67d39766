//! In-memory storage of the catalog: venues, artists, events, raw data and
//! processing runs and records, each table keyed by id.

pub mod table;
pub mod records;
pub mod memory;
