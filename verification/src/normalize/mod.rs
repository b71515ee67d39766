//! Normalized records: canonical entities with the lineage back to the
//! envelope they came from, and the normalizers that make them.

pub mod extract;
pub mod normalizers;
pub mod registry;
pub mod state;

use crate::domain::{Artist, ArtistView, Event, EventView, Venue, VenueView};
use vstd::prelude::*;

verus! {

/// A canonical entity extracted from a source record.
#[derive(Debug)]
pub enum NormalizedEntity {
    Event(Event),
    Venue(Venue),
    Artist(Artist),
}

/// The mathematical content of a [`NormalizedEntity`].
pub enum NormalizedEntityView {
    Event(EventView),
    Venue(VenueView),
    Artist(ArtistView),
}

impl View for NormalizedEntity {
    type V = NormalizedEntityView;

    open spec fn view(&self) -> NormalizedEntityView {
        match self {
            NormalizedEntity::Event(e) => NormalizedEntityView::Event(e@),
            NormalizedEntity::Venue(v) => NormalizedEntityView::Venue(v@),
            NormalizedEntity::Artist(a) => NormalizedEntityView::Artist(a@),
        }
    }
}

/// Where a normalized record came from.
#[derive(Debug)]
pub struct RecordProvenance {
    pub envelope_id: String,
    pub source_id: String,
    pub payload_ref: String,
    pub record_path: String,
    /// Milliseconds since the Unix epoch.
    pub normalized_at: i64,
}

/// How a record was normalized.
#[derive(Debug)]
pub struct NormalizationMetadata {
    /// Confidence in thousandths (1000 is certainty).
    pub confidence: u32,
    pub warnings: Vec<String>,
    pub geocoded: bool,
    pub strategy: String,
}

/// A canonical entity with its lineage and normalization metadata.
#[derive(Debug)]
pub struct NormalizedRecord {
    pub entity: NormalizedEntity,
    pub provenance: RecordProvenance,
    pub normalization: NormalizationMetadata,
}

} // verus!
