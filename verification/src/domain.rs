//! The catalog's entities: venues, events and artists.
//!
//! Identifiers are UUIDs held as their 128-bit value (0 is the nil UUID),
//! timestamps are milliseconds since the Unix epoch, coordinates are
//! millionths of a degree and times of day are seconds after midnight.

use crate::text::opt_view;
use vstd::prelude::*;

verus! {

/// A day of the proleptic Gregorian calendar.
#[derive(Debug, Clone, Copy, PartialEq, Eq, Structural)]
pub struct CalendarDate {
    pub year: i32,
    pub month: u32,
    pub day: u32,
}

/// A music venue.
#[derive(Debug)]
pub struct Venue {
    pub id: Option<u128>,
    pub name: String,
    pub name_lower: String,
    pub slug: String,
    pub address: String,
    pub city: String,
    pub postal_code: String,
    pub neighborhood: Option<String>,
    /// Millionths of a degree.
    pub latitude: i64,
    /// Millionths of a degree.
    pub longitude: i64,
    pub venue_url: Option<String>,
    pub venue_image_url: Option<String>,
    pub description: Option<String>,
    pub show_venue: bool,
    /// Milliseconds since the Unix epoch.
    pub created_at: i64,
}

/// An event at a venue on a given day.
#[derive(Debug)]
pub struct Event {
    pub id: Option<u128>,
    pub title: String,
    pub event_day: CalendarDate,
    /// Seconds after midnight.
    pub start_time: Option<u32>,
    pub event_url: Option<String>,
    pub description: Option<String>,
    pub event_image_url: Option<String>,
    pub venue_id: u128,
    pub artist_ids: Vec<u128>,
    pub show_event: bool,
    pub finalized: bool,
    /// Milliseconds since the Unix epoch.
    pub created_at: i64,
}

/// A performing artist.
#[derive(Debug)]
pub struct Artist {
    pub id: Option<u128>,
    pub name: String,
    pub name_slug: String,
    pub bio: Option<String>,
    pub artist_image_url: Option<String>,
    /// Milliseconds since the Unix epoch.
    pub created_at: i64,
}

/// The mathematical content of a [`Venue`].
#[verifier::ext_equal]
pub struct VenueView {
    pub id: Option<u128>,
    pub name: Seq<char>,
    pub name_lower: Seq<char>,
    pub slug: Seq<char>,
    pub address: Seq<char>,
    pub city: Seq<char>,
    pub postal_code: Seq<char>,
    pub neighborhood: Option<Seq<char>>,
    pub latitude: i64,
    pub longitude: i64,
    pub venue_url: Option<Seq<char>>,
    pub venue_image_url: Option<Seq<char>>,
    pub description: Option<Seq<char>>,
    pub show_venue: bool,
    pub created_at: i64,
}

/// The mathematical content of an [`Event`].
#[verifier::ext_equal]
pub struct EventView {
    pub id: Option<u128>,
    pub title: Seq<char>,
    pub event_day: CalendarDate,
    pub start_time: Option<u32>,
    pub event_url: Option<Seq<char>>,
    pub description: Option<Seq<char>>,
    pub event_image_url: Option<Seq<char>>,
    pub venue_id: u128,
    pub artist_ids: Seq<u128>,
    pub show_event: bool,
    pub finalized: bool,
    pub created_at: i64,
}

/// The mathematical content of an [`Artist`].
#[verifier::ext_equal]
pub struct ArtistView {
    pub id: Option<u128>,
    pub name: Seq<char>,
    pub name_slug: Seq<char>,
    pub bio: Option<Seq<char>>,
    pub artist_image_url: Option<Seq<char>>,
    pub created_at: i64,
}

impl View for Venue {
    type V = VenueView;

    open spec fn view(&self) -> VenueView {
        VenueView {
            id: self.id,
            name: self.name@,
            name_lower: self.name_lower@,
            slug: self.slug@,
            address: self.address@,
            city: self.city@,
            postal_code: self.postal_code@,
            neighborhood: opt_view(self.neighborhood),
            latitude: self.latitude,
            longitude: self.longitude,
            venue_url: opt_view(self.venue_url),
            venue_image_url: opt_view(self.venue_image_url),
            description: opt_view(self.description),
            show_venue: self.show_venue,
            created_at: self.created_at,
        }
    }
}

impl View for Event {
    type V = EventView;

    open spec fn view(&self) -> EventView {
        EventView {
            id: self.id,
            title: self.title@,
            event_day: self.event_day,
            start_time: self.start_time,
            event_url: opt_view(self.event_url),
            description: opt_view(self.description),
            event_image_url: opt_view(self.event_image_url),
            venue_id: self.venue_id,
            artist_ids: self.artist_ids@,
            show_event: self.show_event,
            finalized: self.finalized,
            created_at: self.created_at,
        }
    }
}

impl View for Artist {
    type V = ArtistView;

    open spec fn view(&self) -> ArtistView {
        ArtistView {
            id: self.id,
            name: self.name@,
            name_slug: self.name_slug@,
            bio: opt_view(self.bio),
            artist_image_url: opt_view(self.artist_image_url),
            created_at: self.created_at,
        }
    }
}

} // verus!
