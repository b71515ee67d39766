//! Whether an updated entity differs from its stored version in the fields
//! that matter for persistence.

use crate::domain::{ArtistView, Artist, Event, EventView, Venue, VenueView};
use crate::text::opt_str_eq;
use vstd::prelude::*;

verus! {

/// The fields compared for events: title, description, URLs, start time and
/// artists.
pub open spec fn event_changed(a: EventView, b: EventView) -> bool {
    a.title != b.title || a.description != b.description || a.event_url != b.event_url
        || a.event_image_url != b.event_image_url || a.start_time != b.start_time || a.artist_ids != b.artist_ids
}

/// The fields compared for venues: name, address, city, postal code,
/// neighborhood, coordinates, URLs and description.
pub open spec fn venue_changed(a: VenueView, b: VenueView) -> bool {
    a.name != b.name || a.address != b.address || a.city != b.city || a.postal_code != b.postal_code
        || a.neighborhood != b.neighborhood || a.latitude != b.latitude || a.longitude != b.longitude
        || a.venue_url != b.venue_url || a.venue_image_url != b.venue_image_url || a.description != b.description
}

/// The fields compared for artists: name, slug, bio and image URL.
pub open spec fn artist_changed(a: ArtistView, b: ArtistView) -> bool {
    a.name != b.name || a.name_slug != b.name_slug || a.bio != b.bio || a.artist_image_url != b.artist_image_url
}

/// Whether two identifier lists are equal.
fn ids_eq(a: &Vec<u128>, b: &Vec<u128>) -> (r: bool)
    ensures
        r == (a@ == b@),
{
    if a.len() != b.len() {
        return false;
    }
    let mut i: usize = 0;
    while i < a.len()
        invariant
            a@.len() == b@.len(),
            i <= a@.len(),
            forall|j: int| 0 <= j < i ==> a@[j] == b@[j],
        decreases a@.len() - i,
    {
        if a[i] != b[i] {
            return false;
        }
        i = i + 1;
    }
    assert(a@ =~= b@);
    true
}

/// Idempotency checks for catalog writes.
pub struct IdempotencyChecker;

impl IdempotencyChecker {
    /// Whether `updated` differs from `existing` in a compared event field.
    pub fn event_has_changes(existing: &Event, updated: &Event) -> (r: bool)
        ensures
            r == event_changed(existing@, updated@),
    {
        let same_start = match (existing.start_time, updated.start_time) {
            (Some(x), Some(y)) => x == y,
            (None, None) => true,
            _ => false,
        };
        existing.title != updated.title || !opt_str_eq(&existing.description, &updated.description)
            || !opt_str_eq(&existing.event_url, &updated.event_url)
            || !opt_str_eq(&existing.event_image_url, &updated.event_image_url) || !same_start
            || !ids_eq(&existing.artist_ids, &updated.artist_ids)
    }

    /// Whether `updated` differs from `existing` in a compared venue field.
    pub fn venue_has_changes(existing: &Venue, updated: &Venue) -> (r: bool)
        ensures
            r == venue_changed(existing@, updated@),
    {
        existing.name != updated.name || existing.address != updated.address || existing.city != updated.city
            || existing.postal_code != updated.postal_code
            || !opt_str_eq(&existing.neighborhood, &updated.neighborhood) || existing.latitude != updated.latitude
            || existing.longitude != updated.longitude || !opt_str_eq(&existing.venue_url, &updated.venue_url)
            || !opt_str_eq(&existing.venue_image_url, &updated.venue_image_url)
            || !opt_str_eq(&existing.description, &updated.description)
    }

    /// Whether `updated` differs from `existing` in a compared artist field.
    pub fn artist_has_changes(existing: &Artist, updated: &Artist) -> (r: bool)
        ensures
            r == artist_changed(existing@, updated@),
    {
        existing.name != updated.name || existing.name_slug != updated.name_slug || !opt_str_eq(
            &existing.bio,
            &updated.bio,
        ) || !opt_str_eq(&existing.artist_image_url, &updated.artist_image_url)
    }
}

/// An entity never differs from itself, and difference does not depend on
/// which of the two is the stored one.
pub proof fn lemma_change_detection_reflexive_symmetric(
    e1: EventView,
    e2: EventView,
    v1: VenueView,
    v2: VenueView,
    a1: ArtistView,
    a2: ArtistView,
)
    ensures
        !event_changed(e1, e1),
        !venue_changed(v1, v1),
        !artist_changed(a1, a1),
        event_changed(e1, e2) == event_changed(e2, e1),
        venue_changed(v1, v2) == venue_changed(v2, v1),
        artist_changed(a1, a2) == artist_changed(a2, a1),
{
}

} // verus!
