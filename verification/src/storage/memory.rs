//! Storage held in memory: one table per kind of row, each keyed by id.
//! Rows get a fresh random id when created; lists come in a fixed order.

use crate::domain::{Artist, ArtistView, CalendarDate, Event, EventView, Venue, VenueView};
use crate::ids::new_v4;
use crate::storage::records::{day_before, day_lt, ProcessRecord, ProcessRecordView, ProcessRun, ProcessRunView, RawData, RawDataView};
use crate::storage::table::{ids_match, in_order, listing, row_views, AnyRow, Keeps, Listed, Row, Table};
use crate::text::{contains_spec, contains_str, lowercase_of, owned, str_eq, to_lowercase};
use vstd::prelude::*;

verus! {

/// Why a storage operation failed.
#[derive(Debug)]
pub enum StorageError {
    /// The operation needs something the row lacks.
    Api { message: String },
}

/// What the storage holds: each kind of row by id.
pub struct StorageView {
    pub venues: Map<u128, VenueView>,
    pub artists: Map<u128, ArtistView>,
    pub events: Map<u128, EventView>,
    pub raw_data: Map<u128, RawDataView>,
    pub process_runs: Map<u128, ProcessRunView>,
    pub process_records: Map<u128, ProcessRecordView>,
}

/// Storage for development and tests.
pub struct InMemoryStorage {
    venues: Table<Venue>,
    artists: Table<Artist>,
    events: Table<Event>,
    raw_data: Table<RawData>,
    process_runs: Table<ProcessRun>,
    process_records: Table<ProcessRecord>,
}

impl View for InMemoryStorage {
    type V = StorageView;

    closed spec fn view(&self) -> StorageView {
        StorageView {
            venues: self.venues@,
            artists: self.artists@,
            events: self.events@,
            raw_data: self.raw_data@,
            process_runs: self.process_runs@,
            process_records: self.process_records@,
        }
    }
}

/// Every row is stored under its own id.
pub open spec fn ids_agree(s: StorageView) -> bool {
    &&& ids_match::<Venue>(s.venues)
    &&& ids_match::<Artist>(s.artists)
    &&& ids_match::<Event>(s.events)
    &&& ids_match::<RawData>(s.raw_data)
    &&& ids_match::<ProcessRun>(s.process_runs)
    &&& ids_match::<ProcessRecord>(s.process_records)
}

/// A venue with its id set.
pub open spec fn venue_with_id(v: VenueView, id: u128) -> VenueView {
    VenueView { id: Some(id), ..v }
}

/// An artist with its id set.
pub open spec fn artist_with_id(a: ArtistView, id: u128) -> ArtistView {
    ArtistView { id: Some(id), ..a }
}

/// An event with its id set.
pub open spec fn event_with_id(e: EventView, id: u128) -> EventView {
    EventView { id: Some(id), ..e }
}

/// Raw data with its id set.
pub open spec fn raw_data_with_id(r: RawDataView, id: u128) -> RawDataView {
    RawDataView { id: Some(id), ..r }
}

/// A run with its id set.
pub open spec fn run_with_id(r: ProcessRunView, id: u128) -> ProcessRunView {
    ProcessRunView { id: Some(id), ..r }
}

/// A record with its id set.
pub open spec fn record_with_id(r: ProcessRecordView, id: u128) -> ProcessRecordView {
    ProcessRecordView { id: Some(id), ..r }
}

/// Venues whose name matches `name` ignoring case.
pub open spec fn venue_named(name: Seq<char>) -> spec_fn(VenueView) -> bool {
    |v: VenueView| lowercase_of(v.name) == lowercase_of(name)
}

/// Artists whose name matches `name` ignoring case.
pub open spec fn artist_named(name: Seq<char>) -> spec_fn(ArtistView) -> bool {
    |a: ArtistView| lowercase_of(a.name) == lowercase_of(name)
}

/// The event at a venue on a day whose title matches ignoring case.
pub open spec fn event_at(venue_id: u128, day: CalendarDate, title: Seq<char>) -> spec_fn(EventView) -> bool {
    |e: EventView| e.venue_id == venue_id && e.event_day == day && lowercase_of(e.title) == lowercase_of(title)
}

/// Unprocessed raw data of an API, after `min_date` when one is given.
pub open spec fn unprocessed(api_name: Seq<char>, min_date: Option<CalendarDate>) -> spec_fn(RawDataView) -> bool {
    |r: RawDataView| r.api_name == api_name && !r.processed && match min_date {
        Some(d) => day_lt(d, r.event_day),
        None => true,
    }
}

/// Events at a venue.
pub open spec fn at_venue(venue_id: u128) -> spec_fn(EventView) -> bool {
    |e: EventView| e.venue_id == venue_id
}

/// Events an artist plays.
pub open spec fn with_artist(artist_id: u128) -> spec_fn(EventView) -> bool {
    |e: EventView| e.artist_ids.contains(artist_id)
}

/// Events from `start` to `end`, both included.
pub open spec fn within(start: CalendarDate, end: CalendarDate) -> spec_fn(EventView) -> bool {
    |e: EventView| !day_lt(e.event_day, start) && !day_lt(end, e.event_day)
}

/// Artists whose name contains `query`, ignoring case.
pub open spec fn artist_matching(query: Seq<char>) -> spec_fn(ArtistView) -> bool {
    |a: ArtistView| contains_spec(lowercase_of(a.name), lowercase_of(query))
}

/// Every row.
pub open spec fn every<V>() -> spec_fn(V) -> bool {
    |v: V| true
}

/// The page of a list: from `offset` (0 when absent), at most `limit` rows
/// (all when absent); empty when the offset is past the end.
pub open spec fn page_of<A>(s: Seq<A>, offset: Option<usize>, limit: Option<usize>) -> Seq<A> {
    let o: int = match offset {
        Some(o) => o as int,
        None => 0,
    };
    let end: int = match limit {
        Some(l) => if o + l < s.len() { o + l } else { s.len() as int },
        None => s.len() as int,
    };
    if o <= end {
        s.subrange(o, end)
    } else {
        Seq::empty()
    }
}

/// `r` is exactly the rows of `rows` that satisfy `pred`, each once, in order.
pub open spec fn lists<T: Listed>(r: Seq<T::V>, rows: Map<u128, T::V>, pred: spec_fn(T::V) -> bool) -> bool {
    &&& r.to_set() == rows.values().filter(pred)
    &&& r.no_duplicates()
    &&& in_order::<T>(r)
}

/// `r` is a page of all rows listed in order.
pub open spec fn pages<T: Listed>(r: Seq<T::V>, rows: Map<u128, T::V>, offset: Option<usize>, limit: Option<usize>) -> bool {
    exists|s: Seq<T::V>| lists::<T>(s, rows, every::<T::V>()) && r == page_of(s, offset, limit)
}

/// The offset and limit of a page add up without overflow.
pub open spec fn page_fits(offset: Option<usize>, limit: Option<usize>) -> bool {
    match (offset, limit) {
        (Some(o), Some(l)) => o + l <= usize::MAX,
        _ => true,
    }
}

/// Copies of the rows of `s` from `start` to `end`.
fn copy_range<T: Row>(s: &Vec<T>, start: usize, end: usize) -> (r: Vec<T>)
    requires
        start <= end <= s@.len(),
    ensures
        row_views(r@) == row_views(s@).subrange(start as int, end as int),
{
    let mut r: Vec<T> = Vec::new();
    let mut i: usize = start;
    while i < end
        invariant
            start <= i <= end <= s@.len(),
            row_views(r@) == row_views(s@).subrange(start as int, i as int),
        decreases end - i,
    {
        let ghost prev = row_views(r@);
        r.push(s[i].duplicate());
        assert(row_views(r@) =~= row_views(s@).subrange(start as int, i + 1)) by {
            assert(row_views(r@) =~= prev.push(s@[i as int]@));
        }
        i = i + 1;
    }
    r
}

/// The page of a listed vector.
fn page<T: Row>(s: &Vec<T>, offset: Option<usize>, limit: Option<usize>) -> (r: Vec<T>)
    requires
        page_fits(offset, limit),
    ensures
        row_views(r@) == page_of(row_views(s@), offset, limit),
{
    let o: usize = match offset {
        Some(o) => o,
        None => 0,
    };
    let end: usize = match limit {
        Some(l) => if o + l < s.len() { o + l } else { s.len() },
        None => s.len(),
    };
    if o <= end {
        copy_range(s, o, end)
    } else {
        let r: Vec<T> = Vec::new();
        assert(row_views(r@) =~= Seq::<T::V>::empty());
        r
    }
}

/// Whether `ids` holds `x`.
fn holds_id(ids: &Vec<u128>, x: u128) -> (r: bool)
    ensures
        r == ids@.contains(x),
{
    let mut i: usize = 0;
    while i < ids.len()
        invariant
            i <= ids@.len(),
            forall|j: int| 0 <= j < i ==> ids@[j] != x,
        decreases ids@.len() - i,
    {
        if ids[i] == x {
            return true;
        }
        i = i + 1;
    }
    false
}

/// The first of the rows `keep` accepts: one of the map's values that
/// satisfy `pred`, none when no value does.
fn first_where<T: Row, Q: Keeps<T>>(table: &Table<T>, keep: &Q, Ghost(pred): Ghost<spec_fn(T::V) -> bool>) -> (r: Option<T>)
    requires
        forall|v: T::V| #[trigger] pred(v) == keep.wanted(v),
    ensures
        match r {
            Some(row) => table@.values().contains(row@) && pred(row@),
            None => forall|v: T::V| table@.values().contains(v) ==> !pred(v),
        },
{
    let mut found = table.rows_where(keep, Ghost(pred));
    if found.len() > 0 {
        assert(row_views(found@).to_set().contains(found@[0]@)) by {
            assert(row_views(found@)[0] == found@[0]@);
        }
        Some(found.remove(0))
    } else {
        proof {
            assert forall|v: T::V| table@.values().contains(v) implies !pred(v) by {
                if pred(v) {
                    assert(table@.values().filter(pred).contains(v));
                    assert(row_views(found@).contains(v));
                }
            }
        }
        None
    }
}

/// Venues named, ignoring case, as the lowercase name given.
struct VenueNamed {
    wanted: String,
}

impl Keeps<Venue> for VenueNamed {
    closed spec fn wanted(&self, v: VenueView) -> bool {
        lowercase_of(v.name) == self.wanted@
    }

    fn keeps(&self, row: &Venue) -> (b: bool) {
        str_eq(to_lowercase(row.name.as_str()).as_str(), self.wanted.as_str())
    }
}

/// Artists named, ignoring case, as the lowercase name given.
struct ArtistNamed {
    wanted: String,
}

impl Keeps<Artist> for ArtistNamed {
    closed spec fn wanted(&self, a: ArtistView) -> bool {
        lowercase_of(a.name) == self.wanted@
    }

    fn keeps(&self, row: &Artist) -> (b: bool) {
        str_eq(to_lowercase(row.name.as_str()).as_str(), self.wanted.as_str())
    }
}

/// Artists whose lowercase name contains the text given.
struct ArtistContaining {
    wanted: String,
}

impl Keeps<Artist> for ArtistContaining {
    closed spec fn wanted(&self, a: ArtistView) -> bool {
        contains_spec(lowercase_of(a.name), self.wanted@)
    }

    fn keeps(&self, row: &Artist) -> (b: bool) {
        contains_str(to_lowercase(row.name.as_str()).as_str(), self.wanted.as_str())
    }
}

/// The event at a venue on a day with the lowercase title given.
struct EventAt {
    venue_id: u128,
    day: CalendarDate,
    wanted: String,
}

impl Keeps<Event> for EventAt {
    closed spec fn wanted(&self, e: EventView) -> bool {
        e.venue_id == self.venue_id && e.event_day == self.day && lowercase_of(e.title) == self.wanted@
    }

    fn keeps(&self, row: &Event) -> (b: bool) {
        row.venue_id == self.venue_id && row.event_day == self.day && str_eq(to_lowercase(row.title.as_str()).as_str(), self.wanted.as_str())
    }
}

/// Events at a venue.
struct AtVenue {
    venue_id: u128,
}

impl Keeps<Event> for AtVenue {
    closed spec fn wanted(&self, e: EventView) -> bool {
        e.venue_id == self.venue_id
    }

    fn keeps(&self, row: &Event) -> (b: bool) {
        row.venue_id == self.venue_id
    }
}

/// Events an artist plays.
struct WithArtist {
    artist_id: u128,
}

impl Keeps<Event> for WithArtist {
    closed spec fn wanted(&self, e: EventView) -> bool {
        e.artist_ids.contains(self.artist_id)
    }

    fn keeps(&self, row: &Event) -> (b: bool) {
        holds_id(&row.artist_ids, self.artist_id)
    }
}

/// Events within a range of days.
struct Within {
    start: CalendarDate,
    end: CalendarDate,
}

impl Keeps<Event> for Within {
    closed spec fn wanted(&self, e: EventView) -> bool {
        !day_lt(e.event_day, self.start) && !day_lt(self.end, e.event_day)
    }

    fn keeps(&self, row: &Event) -> (b: bool) {
        !day_before(row.event_day, self.start) && !day_before(self.end, row.event_day)
    }
}

/// Unprocessed raw data of an API, after a day when one is given.
struct Unprocessed<'a> {
    api_name: &'a str,
    min_date: Option<CalendarDate>,
}

impl<'a> Keeps<RawData> for Unprocessed<'a> {
    closed spec fn wanted(&self, r: RawDataView) -> bool {
        unprocessed(self.api_name@, self.min_date)(r)
    }

    fn keeps(&self, row: &RawData) -> (b: bool) {
        str_eq(row.api_name.as_str(), self.api_name) && !row.processed && match self.min_date {
            Some(m) => day_before(m, row.event_day),
            None => true,
        }
    }
}

impl InMemoryStorage {
    #[verifier::type_invariant]
    closed spec fn wf(&self) -> bool {
        ids_agree(self@)
    }

    /// Empty storage.
    pub fn new() -> (s: Self)
        ensures
            s@.venues == Map::<u128, VenueView>::empty(),
            s@.artists == Map::<u128, ArtistView>::empty(),
            s@.events == Map::<u128, EventView>::empty(),
            s@.raw_data == Map::<u128, RawDataView>::empty(),
            s@.process_runs == Map::<u128, ProcessRunView>::empty(),
            s@.process_records == Map::<u128, ProcessRecordView>::empty(),
            ids_agree(s@),
    {
        InMemoryStorage {
            venues: Table::new(),
            artists: Table::new(),
            events: Table::new(),
            raw_data: Table::new(),
            process_runs: Table::new(),
            process_records: Table::new(),
        }
    }

    /// Stores a venue under a fresh random id, which it sets on the venue.
    pub fn create_venue(&mut self, venue: &mut Venue) -> (r: Result<(), StorageError>)
        ensures
            r is Ok,
            final(venue)@.id is Some,
            final(venue)@ == venue_with_id(old(venue)@, final(venue)@.id->0),
            final(self)@.venues == old(self)@.venues.insert(final(venue)@.id->0, final(venue)@),
            final(self)@.artists == old(self)@.artists,
            final(self)@.events == old(self)@.events,
            final(self)@.raw_data == old(self)@.raw_data,
            final(self)@.process_runs == old(self)@.process_runs,
            final(self)@.process_records == old(self)@.process_records,
            ids_agree(final(self)@),
    {
        proof {
            use_type_invariant(&*self);
        }
        let id = new_v4();
        venue.id = Some(id);
        let mut t = Table::new();
        std::mem::swap(&mut t, &mut self.venues);
        t.put(venue.duplicate());
        self.venues = t;
        Ok(())
    }

    /// A venue whose name matches `name` ignoring case.
    pub fn get_venue_by_name(&self, name: &str) -> (r: Option<Venue>)
        ensures
            match r {
                Some(v) => self@.venues.values().contains(v@) && venue_named(name@)(v@),
                None => forall|v: VenueView| self@.venues.values().contains(v) ==> !venue_named(name@)(v),
            },
            ids_agree(self@),
    {
        proof {
            use_type_invariant(self);
        }
        let q = VenueNamed { wanted: to_lowercase(name) };
        first_where(&self.venues, &q, Ghost(venue_named(name@)))
    }

    /// Stores an artist under a fresh random id, which it sets on the artist.
    pub fn create_artist(&mut self, artist: &mut Artist) -> (r: Result<(), StorageError>)
        ensures
            r is Ok,
            final(artist)@.id is Some,
            final(artist)@ == artist_with_id(old(artist)@, final(artist)@.id->0),
            final(self)@.artists == old(self)@.artists.insert(final(artist)@.id->0, final(artist)@),
            final(self)@.venues == old(self)@.venues,
            final(self)@.events == old(self)@.events,
            final(self)@.raw_data == old(self)@.raw_data,
            final(self)@.process_runs == old(self)@.process_runs,
            final(self)@.process_records == old(self)@.process_records,
            ids_agree(final(self)@),
    {
        proof {
            use_type_invariant(&*self);
        }
        let id = new_v4();
        artist.id = Some(id);
        let mut t = Table::new();
        std::mem::swap(&mut t, &mut self.artists);
        t.put(artist.duplicate());
        self.artists = t;
        Ok(())
    }

    /// An artist whose name matches `name` ignoring case.
    pub fn get_artist_by_name(&self, name: &str) -> (r: Option<Artist>)
        ensures
            match r {
                Some(a) => self@.artists.values().contains(a@) && artist_named(name@)(a@),
                None => forall|a: ArtistView| self@.artists.values().contains(a) ==> !artist_named(name@)(a),
            },
            ids_agree(self@),
    {
        proof {
            use_type_invariant(self);
        }
        let q = ArtistNamed { wanted: to_lowercase(name) };
        first_where(&self.artists, &q, Ghost(artist_named(name@)))
    }

    /// Stores an event under a fresh random id, which it sets on the event.
    pub fn create_event(&mut self, event: &mut Event) -> (r: Result<(), StorageError>)
        ensures
            r is Ok,
            final(event)@.id is Some,
            final(event)@ == event_with_id(old(event)@, final(event)@.id->0),
            final(self)@.events == old(self)@.events.insert(final(event)@.id->0, final(event)@),
            final(self)@.venues == old(self)@.venues,
            final(self)@.artists == old(self)@.artists,
            final(self)@.raw_data == old(self)@.raw_data,
            final(self)@.process_runs == old(self)@.process_runs,
            final(self)@.process_records == old(self)@.process_records,
            ids_agree(final(self)@),
    {
        proof {
            use_type_invariant(&*self);
        }
        let id = new_v4();
        event.id = Some(id);
        let mut t = Table::new();
        std::mem::swap(&mut t, &mut self.events);
        t.put(event.duplicate());
        self.events = t;
        Ok(())
    }

    /// An event at `venue_id` on `event_day` whose title matches `title`
    /// ignoring case.
    pub fn get_event_by_venue_date_title(&self, venue_id: u128, event_day: CalendarDate, title: &str) -> (r: Option<Event>)
        ensures
            match r {
                Some(e) => self@.events.values().contains(e@) && event_at(venue_id, event_day, title@)(e@),
                None => forall|e: EventView| self@.events.values().contains(e) ==> !event_at(venue_id, event_day, title@)(e),
            },
            ids_agree(self@),
    {
        proof {
            use_type_invariant(self);
        }
        let q = EventAt { venue_id, day: event_day, wanted: to_lowercase(title) };
        first_where(&self.events, &q, Ghost(event_at(venue_id, event_day, title@)))
    }

    /// Stores an event under its own id; an error when it has none.
    pub fn update_event(&mut self, event: &Event) -> (r: Result<(), StorageError>)
        ensures
            match event.id {
                Some(k) => r is Ok && final(self)@.events == old(self)@.events.insert(k, event@),
                None => r matches Err(StorageError::Api { message }) && message@ == "Cannot update event without ID"@
                    && final(self)@.events == old(self)@.events,
            },
            final(self)@.venues == old(self)@.venues,
            final(self)@.artists == old(self)@.artists,
            final(self)@.raw_data == old(self)@.raw_data,
            final(self)@.process_runs == old(self)@.process_runs,
            final(self)@.process_records == old(self)@.process_records,
            ids_agree(final(self)@),
    {
        proof {
            use_type_invariant(&*self);
        }
        match event.id {
            Some(_) => {
                let mut t = Table::new();
                std::mem::swap(&mut t, &mut self.events);
                t.put(event.duplicate());
                self.events = t;
                Ok(())
            },
            None => Err(StorageError::Api { message: owned("Cannot update event without ID") }),
        }
    }

    /// Stores raw data under a fresh random id, which it sets on the data.
    pub fn create_raw_data(&mut self, raw_data: &mut RawData) -> (r: Result<(), StorageError>)
        ensures
            r is Ok,
            final(raw_data)@.id is Some,
            final(raw_data)@ == raw_data_with_id(old(raw_data)@, final(raw_data)@.id->0),
            final(self)@.raw_data == old(self)@.raw_data.insert(final(raw_data)@.id->0, final(raw_data)@),
            final(self)@.venues == old(self)@.venues,
            final(self)@.artists == old(self)@.artists,
            final(self)@.events == old(self)@.events,
            final(self)@.process_runs == old(self)@.process_runs,
            final(self)@.process_records == old(self)@.process_records,
            ids_agree(final(self)@),
    {
        proof {
            use_type_invariant(&*self);
        }
        let id = new_v4();
        raw_data.id = Some(id);
        let mut t = Table::new();
        std::mem::swap(&mut t, &mut self.raw_data);
        t.put(raw_data.duplicate());
        self.raw_data = t;
        Ok(())
    }

    /// The unprocessed raw data of `api_name`, only that after `min_date`
    /// when one is given, by day.
    pub fn get_unprocessed_raw_data(&self, api_name: &str, min_date: Option<CalendarDate>) -> (r: Vec<RawData>)
        ensures
            lists::<RawData>(row_views(r@), self@.raw_data, unprocessed(api_name@, min_date)),
            ids_agree(self@),
    {
        proof {
            use_type_invariant(self);
        }
        let q = Unprocessed { api_name, min_date };
        listing(&self.raw_data, &q, Ghost(unprocessed(api_name@, min_date)))
    }

    /// Marks the raw data stored under `raw_data_id` processed; nothing
    /// changes when there is none.
    pub fn mark_raw_data_processed(&mut self, raw_data_id: u128) -> (r: Result<(), StorageError>)
        ensures
            r is Ok,
            final(self)@.raw_data == if old(self)@.raw_data.contains_key(raw_data_id) {
                old(self)@.raw_data.insert(raw_data_id, RawDataView { processed: true, ..old(self)@.raw_data[raw_data_id] })
            } else {
                old(self)@.raw_data
            },
            final(self)@.venues == old(self)@.venues,
            final(self)@.artists == old(self)@.artists,
            final(self)@.events == old(self)@.events,
            final(self)@.process_runs == old(self)@.process_runs,
            final(self)@.process_records == old(self)@.process_records,
            ids_agree(final(self)@),
    {
        proof {
            use_type_invariant(&*self);
        }
        match self.raw_data.get(raw_data_id) {
            Some(mut d) => {
                d.processed = true;
                let mut t = Table::new();
                std::mem::swap(&mut t, &mut self.raw_data);
                t.put(d);
                self.raw_data = t;
            },
            None => {},
        }
        Ok(())
    }

    /// Stores a run under a fresh random id, which it sets on the run.
    pub fn create_process_run(&mut self, run: &mut ProcessRun) -> (r: Result<(), StorageError>)
        ensures
            r is Ok,
            final(run)@.id is Some,
            final(run)@ == run_with_id(old(run)@, final(run)@.id->0),
            final(self)@.process_runs == old(self)@.process_runs.insert(final(run)@.id->0, final(run)@),
            final(self)@.venues == old(self)@.venues,
            final(self)@.artists == old(self)@.artists,
            final(self)@.events == old(self)@.events,
            final(self)@.raw_data == old(self)@.raw_data,
            final(self)@.process_records == old(self)@.process_records,
            ids_agree(final(self)@),
    {
        proof {
            use_type_invariant(&*self);
        }
        let id = new_v4();
        run.id = Some(id);
        let mut t = Table::new();
        std::mem::swap(&mut t, &mut self.process_runs);
        t.put(run.duplicate());
        self.process_runs = t;
        Ok(())
    }

    /// Stores a run under its own id; an error when it has none.
    pub fn update_process_run(&mut self, run: &ProcessRun) -> (r: Result<(), StorageError>)
        ensures
            match run.id {
                Some(k) => r is Ok && final(self)@.process_runs == old(self)@.process_runs.insert(k, run@),
                None => r matches Err(StorageError::Api { message }) && message@ == "Cannot update process run without ID"@
                    && final(self)@.process_runs == old(self)@.process_runs,
            },
            final(self)@.venues == old(self)@.venues,
            final(self)@.artists == old(self)@.artists,
            final(self)@.events == old(self)@.events,
            final(self)@.raw_data == old(self)@.raw_data,
            final(self)@.process_records == old(self)@.process_records,
            ids_agree(final(self)@),
    {
        proof {
            use_type_invariant(&*self);
        }
        match run.id {
            Some(_) => {
                let mut t = Table::new();
                std::mem::swap(&mut t, &mut self.process_runs);
                t.put(run.duplicate());
                self.process_runs = t;
                Ok(())
            },
            None => Err(StorageError::Api { message: owned("Cannot update process run without ID") }),
        }
    }

    /// Stores a record under a fresh random id, which it sets on the record.
    pub fn create_process_record(&mut self, record: &mut ProcessRecord) -> (r: Result<(), StorageError>)
        ensures
            r is Ok,
            final(record)@.id is Some,
            final(record)@ == record_with_id(old(record)@, final(record)@.id->0),
            final(self)@.process_records == old(self)@.process_records.insert(final(record)@.id->0, final(record)@),
            final(self)@.venues == old(self)@.venues,
            final(self)@.artists == old(self)@.artists,
            final(self)@.events == old(self)@.events,
            final(self)@.raw_data == old(self)@.raw_data,
            final(self)@.process_runs == old(self)@.process_runs,
            ids_agree(final(self)@),
    {
        proof {
            use_type_invariant(&*self);
        }
        let id = new_v4();
        record.id = Some(id);
        let mut t = Table::new();
        std::mem::swap(&mut t, &mut self.process_records);
        t.put(record.duplicate());
        self.process_records = t;
        Ok(())
    }

    /// The venue stored under `venue_id`.
    pub fn get_venue_by_id(&self, venue_id: u128) -> (r: Option<Venue>)
        ensures
            match r {
                Some(v) => self@.venues.contains_key(venue_id) && self@.venues[venue_id] == v@,
                None => !self@.venues.contains_key(venue_id),
            },
            ids_agree(self@),
    {
        proof {
            use_type_invariant(self);
        }
        self.venues.get(venue_id)
    }

    /// The artist stored under `artist_id`.
    pub fn get_artist_by_id(&self, artist_id: u128) -> (r: Option<Artist>)
        ensures
            match r {
                Some(a) => self@.artists.contains_key(artist_id) && self@.artists[artist_id] == a@,
                None => !self@.artists.contains_key(artist_id),
            },
            ids_agree(self@),
    {
        proof {
            use_type_invariant(self);
        }
        self.artists.get(artist_id)
    }

    /// The event stored under `event_id`.
    pub fn get_event_by_id(&self, event_id: u128) -> (r: Option<Event>)
        ensures
            match r {
                Some(e) => self@.events.contains_key(event_id) && self@.events[event_id] == e@,
                None => !self@.events.contains_key(event_id),
            },
            ids_agree(self@),
    {
        proof {
            use_type_invariant(self);
        }
        self.events.get(event_id)
    }

    /// A page of all venues by name.
    pub fn get_all_venues(&self, limit: Option<usize>, offset: Option<usize>) -> (r: Vec<Venue>)
        requires
            page_fits(offset, limit),
        ensures
            pages::<Venue>(row_views(r@), self@.venues, offset, limit),
            ids_agree(self@),
    {
        proof {
            use_type_invariant(self);
        }
        let all = listing(&self.venues, &AnyRow, Ghost(every::<VenueView>()));
        page(&all, offset, limit)
    }

    /// A page of all artists by name.
    pub fn get_all_artists(&self, limit: Option<usize>, offset: Option<usize>) -> (r: Vec<Artist>)
        requires
            page_fits(offset, limit),
        ensures
            pages::<Artist>(row_views(r@), self@.artists, offset, limit),
            ids_agree(self@),
    {
        proof {
            use_type_invariant(self);
        }
        let all = listing(&self.artists, &AnyRow, Ghost(every::<ArtistView>()));
        page(&all, offset, limit)
    }

    /// A page of all events by day.
    pub fn get_all_events(&self, limit: Option<usize>, offset: Option<usize>) -> (r: Vec<Event>)
        requires
            page_fits(offset, limit),
        ensures
            pages::<Event>(row_views(r@), self@.events, offset, limit),
            ids_agree(self@),
    {
        proof {
            use_type_invariant(self);
        }
        let all = listing(&self.events, &AnyRow, Ghost(every::<EventView>()));
        page(&all, offset, limit)
    }

    /// The events at a venue, by day.
    pub fn get_events_by_venue_id(&self, venue_id: u128) -> (r: Vec<Event>)
        ensures
            lists::<Event>(row_views(r@), self@.events, at_venue(venue_id)),
            ids_agree(self@),
    {
        proof {
            use_type_invariant(self);
        }
        listing(&self.events, &AtVenue { venue_id }, Ghost(at_venue(venue_id)))
    }

    /// The events an artist plays, by day.
    pub fn get_events_by_artist_id(&self, artist_id: u128) -> (r: Vec<Event>)
        ensures
            lists::<Event>(row_views(r@), self@.events, with_artist(artist_id)),
            ids_agree(self@),
    {
        proof {
            use_type_invariant(self);
        }
        listing(&self.events, &WithArtist { artist_id }, Ghost(with_artist(artist_id)))
    }

    /// The events from `start_date` to `end_date`, both included, by day.
    pub fn get_events_by_date_range(&self, start_date: CalendarDate, end_date: CalendarDate) -> (r: Vec<Event>)
        ensures
            lists::<Event>(row_views(r@), self@.events, within(start_date, end_date)),
            ids_agree(self@),
    {
        proof {
            use_type_invariant(self);
        }
        listing(&self.events, &Within { start: start_date, end: end_date }, Ghost(within(start_date, end_date)))
    }

    /// The artists whose name contains `query` ignoring case, by name.
    pub fn search_artists(&self, query: &str) -> (r: Vec<Artist>)
        ensures
            lists::<Artist>(row_views(r@), self@.artists, artist_matching(query@)),
            ids_agree(self@),
    {
        proof {
            use_type_invariant(self);
        }
        let q = ArtistContaining { wanted: to_lowercase(query) };
        listing(&self.artists, &q, Ghost(artist_matching(query@)))
    }
}

/// A row read back by the id it was stored under is the row stored, and
/// storing it leaves the rows under every other id as they were.
pub proof fn law_read_after_write<V>(before: Map<u128, V>, id: u128, row: V, other: u128)
    ensures
        before.insert(id, row).contains_key(id),
        before.insert(id, row)[id] == row,
        other != id ==> before.insert(id, row).contains_key(other) == before.contains_key(other),
        other != id && before.contains_key(other) ==> before.insert(id, row)[other] == before[other],
{
}

/// Raw data marked processed is no longer among the unprocessed data of any
/// API, and the rest of the raw data keeps its place there.
pub proof fn law_marked_data_not_unprocessed(
    before: Map<u128, RawDataView>,
    id: u128,
    api_name: Seq<char>,
    min_date: Option<CalendarDate>,
    other: RawDataView,
)
    requires
        before.contains_key(id),
        ids_match::<RawData>(before),
    ensures
        ({
            let after = before.insert(id, RawDataView { processed: true, ..before[id] });
            &&& !after.values().filter(unprocessed(api_name, min_date)).contains(after[id])
            &&& other.id != Some(id) ==> (after.values().filter(unprocessed(api_name, min_date)).contains(other)
                == before.values().filter(unprocessed(api_name, min_date)).contains(other))
        }),
{
    let after = before.insert(id, RawDataView { processed: true, ..before[id] });
    if other.id != Some(id) {
        if after.values().contains(other) {
            let k = choose|k: u128| after.contains_key(k) && after[k] == other;
            if k == id {
                assert(after[id].id == Some(id));
            }
            assert(before.contains_key(k) && before[k] == other);
        }
        if before.values().contains(other) {
            let k = choose|k: u128| before.contains_key(k) && before[k] == other;
            assert(k != id);
            assert(after.contains_key(k) && after[k] == other);
        }
    }
}

/// A page holds at most `limit` rows, each the row at its place in the
/// whole list counted from the offset; with neither offset nor limit it is
/// the whole list.
pub proof fn law_page_bounds<A>(s: Seq<A>, offset: usize, limit: Option<usize>, i: int)
    ensures
        page_of(s, None, None) == s,
        limit is Some ==> page_of(s, Some(offset), limit).len() <= limit->0,
        0 <= i < page_of(s, Some(offset), limit).len() ==> page_of(s, Some(offset), limit)[i] == s[offset + i],
{
    assert(s.subrange(0, s.len() as int) =~= s);
}

} // verus!
