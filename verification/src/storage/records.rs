//! The rows of the storage: the catalog's entities, raw source data, and
//! processing runs with the records they emit.

use crate::domain::{Artist, ArtistView, CalendarDate, Event, EventView, Venue, VenueView};
use crate::json::{copy_json, json_text, Json};
use crate::metrics::dashboard::{lemma_lex_irreflexive, lemma_lex_transitive, lex_less, lex_lt};
use crate::storage::table::{Listed, Row};
use crate::text::{opt_clone, opt_view};
use vstd::prelude::*;

verus! {

/// What processing did to a row.
#[derive(Debug, Clone, Copy, PartialEq, Eq, Structural)]
pub enum ChangeType {
    Created,
    Updated,
    NoChange,
    Skip,
    Error,
}

/// One event as an API returned it, before processing.
#[derive(Debug)]
pub struct RawData {
    pub id: Option<u128>,
    pub api_name: String,
    pub event_api_id: String,
    pub event_name: String,
    pub venue_name: String,
    pub event_day: CalendarDate,
    pub data: Json,
    pub processed: bool,
    pub event_id: Option<u128>,
    /// Milliseconds since the Unix epoch.
    pub created_at: i64,
}

/// A processing run.
#[derive(Debug)]
pub struct ProcessRun {
    pub id: Option<u128>,
    pub name: String,
    /// Milliseconds since the Unix epoch.
    pub created_at: i64,
    /// Milliseconds since the Unix epoch.
    pub finished_at: Option<i64>,
}

/// A change made during a processing run.
#[derive(Debug)]
pub struct ProcessRecord {
    pub id: Option<u128>,
    pub process_run_id: u128,
    pub api_name: String,
    pub raw_data_id: Option<u128>,
    pub change_type: String,
    pub change_log: String,
    pub field_changed: String,
    pub event_id: Option<u128>,
    pub venue_id: Option<u128>,
    pub artist_id: Option<u128>,
    /// Milliseconds since the Unix epoch.
    pub created_at: i64,
}

/// The mathematical content of a [`RawData`]; its data is held as JSON text.
pub struct RawDataView {
    pub id: Option<u128>,
    pub api_name: Seq<char>,
    pub event_api_id: Seq<char>,
    pub event_name: Seq<char>,
    pub venue_name: Seq<char>,
    pub event_day: CalendarDate,
    pub data: Seq<char>,
    pub processed: bool,
    pub event_id: Option<u128>,
    pub created_at: i64,
}

/// The mathematical content of a [`ProcessRun`].
pub struct ProcessRunView {
    pub id: Option<u128>,
    pub name: Seq<char>,
    pub created_at: i64,
    pub finished_at: Option<i64>,
}

/// The mathematical content of a [`ProcessRecord`].
pub struct ProcessRecordView {
    pub id: Option<u128>,
    pub process_run_id: u128,
    pub api_name: Seq<char>,
    pub raw_data_id: Option<u128>,
    pub change_type: Seq<char>,
    pub change_log: Seq<char>,
    pub field_changed: Seq<char>,
    pub event_id: Option<u128>,
    pub venue_id: Option<u128>,
    pub artist_id: Option<u128>,
    pub created_at: i64,
}

impl View for RawData {
    type V = RawDataView;

    open spec fn view(&self) -> RawDataView {
        RawDataView {
            id: self.id,
            api_name: self.api_name@,
            event_api_id: self.event_api_id@,
            event_name: self.event_name@,
            venue_name: self.venue_name@,
            event_day: self.event_day,
            data: json_text(self.data),
            processed: self.processed,
            event_id: self.event_id,
            created_at: self.created_at,
        }
    }
}

impl View for ProcessRun {
    type V = ProcessRunView;

    open spec fn view(&self) -> ProcessRunView {
        ProcessRunView { id: self.id, name: self.name@, created_at: self.created_at, finished_at: self.finished_at }
    }
}

impl View for ProcessRecord {
    type V = ProcessRecordView;

    open spec fn view(&self) -> ProcessRecordView {
        ProcessRecordView {
            id: self.id,
            process_run_id: self.process_run_id,
            api_name: self.api_name@,
            raw_data_id: self.raw_data_id,
            change_type: self.change_type@,
            change_log: self.change_log@,
            field_changed: self.field_changed@,
            event_id: self.event_id,
            venue_id: self.venue_id,
            artist_id: self.artist_id,
            created_at: self.created_at,
        }
    }
}

/// Strict order of days.
pub open spec fn day_lt(a: CalendarDate, b: CalendarDate) -> bool {
    a.year < b.year || (a.year == b.year && (a.month < b.month || (a.month == b.month && a.day < b.day)))
}

/// Whether day `a` is strictly before day `b`.
pub fn day_before(a: CalendarDate, b: CalendarDate) -> (r: bool)
    ensures
        r == day_lt(a, b),
{
    a.year < b.year || (a.year == b.year && (a.month < b.month || (a.month == b.month && a.day < b.day)))
}

/// A copy of a list of ids.
pub fn copy_ids(v: &Vec<u128>) -> (r: Vec<u128>)
    ensures
        r@ == v@,
{
    let mut r: Vec<u128> = Vec::new();
    let mut i: usize = 0;
    while i < v.len()
        invariant
            i <= v@.len(),
            r@ == v@.subrange(0, i as int),
        decreases v@.len() - i,
    {
        r.push(v[i]);
        assert(r@ =~= v@.subrange(0, i + 1));
        i = i + 1;
    }
    assert(v@.subrange(0, v@.len() as int) =~= v@);
    r
}

impl Row for Venue {
    open spec fn id_of(v: VenueView) -> Option<u128> {
        v.id
    }

    fn row_id(&self) -> (r: Option<u128>) {
        self.id
    }

    fn duplicate(&self) -> (r: Venue) {
        Venue {
            id: self.id,
            name: self.name.clone(),
            name_lower: self.name_lower.clone(),
            slug: self.slug.clone(),
            address: self.address.clone(),
            city: self.city.clone(),
            postal_code: self.postal_code.clone(),
            neighborhood: opt_clone(&self.neighborhood),
            latitude: self.latitude,
            longitude: self.longitude,
            venue_url: opt_clone(&self.venue_url),
            venue_image_url: opt_clone(&self.venue_image_url),
            description: opt_clone(&self.description),
            show_venue: self.show_venue,
            created_at: self.created_at,
        }
    }
}

impl Listed for Venue {
    /// Venues are listed by name.
    open spec fn precedes(a: VenueView, b: VenueView) -> bool {
        lex_lt(a.name, b.name)
    }

    fn goes_before(&self, other: &Venue) -> (r: bool) {
        lex_less(self.name.as_str(), other.name.as_str())
    }

    proof fn lemma_precedes(a: VenueView, b: VenueView, c: VenueView) {
        lemma_lex_irreflexive(a.name);
        if lex_lt(a.name, b.name) && lex_lt(b.name, c.name) {
            lemma_lex_transitive(a.name, b.name, c.name);
        }
    }
}

impl Row for Artist {
    open spec fn id_of(v: ArtistView) -> Option<u128> {
        v.id
    }

    fn row_id(&self) -> (r: Option<u128>) {
        self.id
    }

    fn duplicate(&self) -> (r: Artist) {
        Artist {
            id: self.id,
            name: self.name.clone(),
            name_slug: self.name_slug.clone(),
            bio: opt_clone(&self.bio),
            artist_image_url: opt_clone(&self.artist_image_url),
            created_at: self.created_at,
        }
    }
}

impl Listed for Artist {
    /// Artists are listed by name.
    open spec fn precedes(a: ArtistView, b: ArtistView) -> bool {
        lex_lt(a.name, b.name)
    }

    fn goes_before(&self, other: &Artist) -> (r: bool) {
        lex_less(self.name.as_str(), other.name.as_str())
    }

    proof fn lemma_precedes(a: ArtistView, b: ArtistView, c: ArtistView) {
        lemma_lex_irreflexive(a.name);
        if lex_lt(a.name, b.name) && lex_lt(b.name, c.name) {
            lemma_lex_transitive(a.name, b.name, c.name);
        }
    }
}

impl Row for Event {
    open spec fn id_of(v: EventView) -> Option<u128> {
        v.id
    }

    fn row_id(&self) -> (r: Option<u128>) {
        self.id
    }

    fn duplicate(&self) -> (r: Event) {
        Event {
            id: self.id,
            title: self.title.clone(),
            event_day: self.event_day,
            start_time: self.start_time,
            event_url: opt_clone(&self.event_url),
            description: opt_clone(&self.description),
            event_image_url: opt_clone(&self.event_image_url),
            venue_id: self.venue_id,
            artist_ids: copy_ids(&self.artist_ids),
            show_event: self.show_event,
            finalized: self.finalized,
            created_at: self.created_at,
        }
    }
}

impl Listed for Event {
    /// Events are listed by day.
    open spec fn precedes(a: EventView, b: EventView) -> bool {
        day_lt(a.event_day, b.event_day)
    }

    fn goes_before(&self, other: &Event) -> (r: bool) {
        day_before(self.event_day, other.event_day)
    }

    proof fn lemma_precedes(a: EventView, b: EventView, c: EventView) {
    }
}

impl Row for RawData {
    open spec fn id_of(v: RawDataView) -> Option<u128> {
        v.id
    }

    fn row_id(&self) -> (r: Option<u128>) {
        self.id
    }

    fn duplicate(&self) -> (r: RawData) {
        RawData {
            id: self.id,
            api_name: self.api_name.clone(),
            event_api_id: self.event_api_id.clone(),
            event_name: self.event_name.clone(),
            venue_name: self.venue_name.clone(),
            event_day: self.event_day,
            data: copy_json(&self.data),
            processed: self.processed,
            event_id: self.event_id,
            created_at: self.created_at,
        }
    }
}

impl Listed for RawData {
    /// Raw data is listed by the day of its event.
    open spec fn precedes(a: RawDataView, b: RawDataView) -> bool {
        day_lt(a.event_day, b.event_day)
    }

    fn goes_before(&self, other: &RawData) -> (r: bool) {
        day_before(self.event_day, other.event_day)
    }

    proof fn lemma_precedes(a: RawDataView, b: RawDataView, c: RawDataView) {
    }
}

impl Row for ProcessRun {
    open spec fn id_of(v: ProcessRunView) -> Option<u128> {
        v.id
    }

    fn row_id(&self) -> (r: Option<u128>) {
        self.id
    }

    fn duplicate(&self) -> (r: ProcessRun) {
        ProcessRun { id: self.id, name: self.name.clone(), created_at: self.created_at, finished_at: self.finished_at }
    }
}

impl Row for ProcessRecord {
    open spec fn id_of(v: ProcessRecordView) -> Option<u128> {
        v.id
    }

    fn row_id(&self) -> (r: Option<u128>) {
        self.id
    }

    fn duplicate(&self) -> (r: ProcessRecord) {
        ProcessRecord {
            id: self.id,
            process_run_id: self.process_run_id,
            api_name: self.api_name.clone(),
            raw_data_id: self.raw_data_id,
            change_type: self.change_type.clone(),
            change_log: self.change_log.clone(),
            field_changed: self.field_changed.clone(),
            event_id: self.event_id,
            venue_id: self.venue_id,
            artist_id: self.artist_id,
            created_at: self.created_at,
        }
    }
}

} // verus!
