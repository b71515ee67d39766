//! Venue scrapers: the records they read from a venue's feed.

pub mod conor_byrne;
pub mod normalizer;
