//! Source-specific normalizers and what they have already emitted.

use crate::calendar::{date_parse_of, now_ms, parse_date, parse_time, time_parse_of, today_utc};
use crate::catalog::mapper::{slug_spec, EntityUtils};
use crate::domain::{Artist, ArtistView, CalendarDate, Event, EventView, Venue, VenueView};
use crate::ids::{uuid_v5_dns, uuid_v5_of};
use crate::json::{json_get, json_str, Json};
use crate::normalize::extract::{keys3, normalized_as, record_of, text_at, text_of};
use crate::normalize::state::{ArtistStateManager, VenueStateManager};
use crate::normalize::{NormalizedEntity, NormalizedEntityView, NormalizedRecord};
use crate::parser::ParsedRecord;
use crate::text::{join, join_spec, lowercase_of, non_empty, non_empty_spec, owned, split2_spec, split_at_either, trim_each, trim_spec};
use vstd::prelude::*;
use vstd::string::*;

verus! {

/// Normalizer for Conor Byrne Pub events.
pub struct ConorByrneNormalizer {
    pub venue_state: VenueStateManager,
    pub artist_state: ArtistStateManager,
}

/// Normalizer for Darrell's Tavern events.
pub struct DarrellsTavernNormalizer {
    pub venue_state: VenueStateManager,
    pub artist_state: ArtistStateManager,
}

/// Normalizer for KEXP events.
pub struct KexpNormalizer {
    pub venue_state: VenueStateManager,
    pub artist_state: ArtistStateManager,
}

impl ConorByrneNormalizer {
    /// A normalizer that has emitted nothing yet.
    pub fn new() -> (r: Self)
        ensures
            !r.venue_state.created,
            r.artist_state@ == Set::<Seq<char>>::empty(),
    {
        ConorByrneNormalizer { venue_state: VenueStateManager::new(), artist_state: ArtistStateManager::new() }
    }

    /// The source this normalizer is for.
    pub fn source_id(&self) -> (r: &'static str)
        ensures
            r@ == "conor_byrne"@,
    {
        "conor_byrne"
    }
}

impl DarrellsTavernNormalizer {
    /// A normalizer that has emitted nothing yet.
    pub fn new() -> (r: Self)
        ensures
            !r.venue_state.created,
            r.artist_state@ == Set::<Seq<char>>::empty(),
    {
        DarrellsTavernNormalizer { venue_state: VenueStateManager::new(), artist_state: ArtistStateManager::new() }
    }

    /// The source this normalizer is for.
    pub fn source_id(&self) -> (r: &'static str)
        ensures
            r@ == "darrells_tavern"@,
    {
        "darrells_tavern"
    }
}

impl KexpNormalizer {
    /// A normalizer that has emitted nothing yet.
    pub fn new() -> (r: Self)
        ensures
            !r.venue_state.created,
            r.artist_state@ == Set::<Seq<char>>::empty(),
    {
        KexpNormalizer { venue_state: VenueStateManager::new(), artist_state: ArtistStateManager::new() }
    }

    /// The source this normalizer is for.
    pub fn source_id(&self) -> (r: &'static str)
        ensures
            r@ == "kexp"@,
    {
        "kexp"
    }
}

/// The title of a source record: its first text under `title`, `name` or
/// `event_name`.
pub open spec fn record_title(data: Json) -> Option<Seq<char>> {
    text_at(data, seq!["title"@, "name"@, "event_name"@])
}

/// The day of a source record: its `event_day` read as `YYYY-MM-DD`, else
/// `today`.
pub open spec fn record_day(data: Json, today: CalendarDate) -> CalendarDate {
    match json_str(json_get(data, "event_day"@)) {
        Some(d) => match date_parse_of(d, "%Y-%m-%d"@) {
            Ok(x) => x,
            Err(_) => today,
        },
        None => today,
    }
}

/// Darrell's Tavern, created at `now`.
pub open spec fn darrells_venue(now: i64) -> VenueView {
    VenueView {
        id: None,
        name: "Darrell's Tavern"@,
        name_lower: "darrell's tavern"@,
        slug: "darrells-tavern"@,
        address: "18041 Aurora Ave N"@,
        city: "Shoreline"@,
        postal_code: "98133"@,
        neighborhood: Some("Shoreline"@),
        latitude: 47_678_000i64,
        longitude: -122_346_000i64,
        venue_url: Some("https://www.darrellstavern.com"@),
        venue_image_url: None,
        description: Some("Live music venue in Shoreline"@),
        show_venue: true,
        created_at: now,
    }
}

/// The artist a title names, under the slug's name-based id.
pub open spec fn titled_artist(title: Seq<char>, now: i64) -> ArtistView {
    let slug = slug_spec(lowercase_of(title));
    ArtistView { id: Some(uuid_v5_of(slug)), name: title, name_slug: slug, bio: None, artist_image_url: None, created_at: now }
}

/// The event of a Darrell's record titled `title`, with its artists.
pub open spec fn darrells_event(data: Json, title: Seq<char>, artist_ids: Seq<u128>, today: CalendarDate, now: i64) -> EventView {
    EventView {
        id: None,
        title,
        event_day: record_day(data, today),
        start_time: None,
        event_url: Some("https://www.darrellstavern.com"@),
        description: None,
        event_image_url: None,
        venue_id: 0,
        artist_ids,
        show_event: true,
        finalized: false,
        created_at: now,
    }
}

/// What normalizing a Darrell's record gives, for a normalizer that has
/// emitted the venue when `venue_done` and the artist slugs `seen`: for a
/// titled record, the title's artist (confidence 850) unless the title is a
/// non-artist event or the slug was seen, then the event (900) linked to
/// that artist unless a non-artist event; then the venue (1000) unless
/// emitted before. Every record is normalized at `now`, without warnings.
pub open spec fn darrells_records(
    out: Seq<NormalizedRecord>,
    source: ParsedRecord,
    non_artist: bool,
    venue_done: bool,
    seen: Set<Seq<char>>,
    today: CalendarDate,
    now: i64,
) -> bool {
    let data = source.record;
    let nv: int = if venue_done { 0 } else { 1 };
    match record_title(data) {
        None => out.len() == nv && (!venue_done ==> normalized_as(out[0], NormalizedEntityView::Venue(darrells_venue(now)), source, now, 1000,
            Seq::empty(), false, "darrells_venue_hardcoded"@)),
        Some(t) => {
            let a = titled_artist(t, now);
            let new_artist = !non_artist && !seen.contains(a.name_slug);
            let na: int = if new_artist { 1 } else { 0 };
            let ids = if non_artist { Seq::<u128>::empty() } else { seq![a.id->0] };
            &&& out.len() == na + 1 + nv
            &&& new_artist ==> normalized_as(out[0], NormalizedEntityView::Artist(a), source, now, 850, Seq::empty(), false, "darrells_artist"@)
            &&& normalized_as(out[na], NormalizedEntityView::Event(darrells_event(data, t, ids, today, now)), source, now, 900, Seq::empty(), false,
                "darrells_event"@)
            &&& !venue_done ==> normalized_as(out[na + 1], NormalizedEntityView::Venue(darrells_venue(now)), source, now, 1000, Seq::empty(),
                false, "darrells_venue_hardcoded"@)
        },
    }
}

/// The day of a record.
pub(crate) fn record_day_of(data: &Json, today: CalendarDate) -> (r: CalendarDate)
    ensures
        r == record_day(*data, today),
{
    match data.get("event_day") {
        Some(Json::Str(d)) => match parse_date(d.as_str(), "%Y-%m-%d") {
            Ok(x) => x,
            Err(_) => today,
        },
        _ => today,
    }
}

/// The artist a title names.
pub(crate) fn artist_of_title(title: &str, now: i64) -> (r: Artist)
    ensures
        r@ == titled_artist(title@, now),
{
    let slug = EntityUtils::generate_slug(title);
    let id = uuid_v5_dns(slug.as_str());
    Artist { id: Some(id), name: owned(title), name_slug: slug, bio: None, artist_image_url: None, created_at: now }
}

fn no_warnings() -> (r: Vec<String>)
    ensures
        crate::metrics::views_of(r@) == Seq::<Seq<char>>::empty(),
{
    let r: Vec<String> = Vec::new();
    assert(crate::metrics::views_of(r@) =~= Seq::<Seq<char>>::empty());
    r
}

fn darrells_venue_of(now: i64) -> (r: Venue)
    ensures
        r@ == darrells_venue(now),
{
    Venue {
        id: None,
        name: owned("Darrell's Tavern"),
        name_lower: owned("darrell's tavern"),
        slug: owned("darrells-tavern"),
        address: owned("18041 Aurora Ave N"),
        city: owned("Shoreline"),
        postal_code: owned("98133"),
        neighborhood: Some(owned("Shoreline")),
        latitude: 47_678_000,
        longitude: -122_346_000,
        venue_url: Some(owned("https://www.darrellstavern.com")),
        venue_image_url: None,
        description: Some(owned("Live music venue in Shoreline")),
        show_venue: true,
        created_at: now,
    }
}

impl DarrellsTavernNormalizer {
    /// The normalized records of a Darrell's record, `non_artist` telling
    /// whether its title names a non-artist event, `today` standing for a
    /// missing or unreadable day and `now` being the time of normalization;
    /// the venue is emitted once and each artist once per slug.
    pub fn normalize_at(&mut self, record: &ParsedRecord, non_artist: bool, today: CalendarDate, now: i64) -> (r: Vec<NormalizedRecord>)
        ensures
            darrells_records(r@, *record, non_artist, old(self).venue_state.created, old(self).artist_state@, today, now),
            final(self).venue_state.created,
            final(self).artist_state@ == (match record_title(record.record) {
                Some(t) => if non_artist { old(self).artist_state@ } else { old(self).artist_state@.insert(titled_artist(t, now).name_slug) },
                None => old(self).artist_state@,
            }),
    {
        let mut out: Vec<NormalizedRecord> = Vec::new();
        let data = &record.record;
        let ws = no_warnings();
        match text_of(data, &keys3("title", "name", "event_name")) {
            Some(title) => {
                let day = record_day_of(data, today);
                let mut ids: Vec<u128> = Vec::new();
                if !non_artist {
                    let artist = artist_of_title(title.as_str(), now);
                    let id = match artist.id {
                        Some(k) => k,
                        None => 0,
                    };
                    ids.push(id);
                    if self.artist_state.should_create_artist(artist.name_slug.as_str()) {
                        out.push(record_of(NormalizedEntity::Artist(artist), record, now, 850, &ws, false, "darrells_artist"));
                    }
                }
                let event = Event {
                    id: None,
                    title: title.clone(),
                    event_day: day,
                    start_time: None,
                    event_url: Some(owned("https://www.darrellstavern.com")),
                    description: None,
                    event_image_url: None,
                    venue_id: 0,
                    artist_ids: ids,
                    show_event: true,
                    finalized: false,
                    created_at: now,
                };
                out.push(record_of(NormalizedEntity::Event(event), record, now, 900, &ws, false, "darrells_event"));
            },
            None => {},
        }
        if self.venue_state.should_create_venue() {
            out.push(record_of(NormalizedEntity::Venue(darrells_venue_of(now)), record, now, 1000, &ws, false, "darrells_venue_hardcoded"));
        }
        out
    }
}

/// The day of a KEXP record: its `date` read as `%B %d, %Y`, `%m/%d/%Y` or
/// `%Y-%m-%d`, the first that reads, else `today`.
pub open spec fn kexp_day(data: Json, today: CalendarDate) -> CalendarDate {
    match json_str(json_get(data, "date"@)) {
        Some(d) => match date_parse_of(d, "%B %d, %Y"@) {
            Ok(x) => x,
            Err(_) => match date_parse_of(d, "%m/%d/%Y"@) {
                Ok(x) => x,
                Err(_) => match date_parse_of(d, "%Y-%m-%d"@) {
                    Ok(x) => x,
                    Err(_) => today,
                },
            },
        },
        None => today,
    }
}

/// The start of a KEXP event: its `time` read as `%I:%M %p` or `%H:%M`.
pub open spec fn kexp_time(data: Json) -> Option<u32> {
    match json_str(json_get(data, "time"@)) {
        Some(t) => match time_parse_of(t, "%I:%M %p"@) {
            Some(x) => Some(x),
            None => time_parse_of(t, "%H:%M"@),
        },
        None => None,
    }
}

/// The KEXP event titled `title`: its `description`, else its `location`.
pub open spec fn kexp_event(data: Json, title: Seq<char>, today: CalendarDate, now: i64) -> EventView {
    EventView {
        id: None,
        title,
        event_day: kexp_day(data, today),
        start_time: kexp_time(data),
        event_url: Some("https://www.kexp.org/events/"@),
        description: match json_str(json_get(data, "description"@)) {
            Some(d) => Some(d),
            None => json_str(json_get(data, "location"@)),
        },
        event_image_url: None,
        venue_id: 0,
        artist_ids: Seq::empty(),
        show_event: true,
        finalized: false,
        created_at: now,
    }
}

/// The KEXP venue, created at `now`.
pub open spec fn kexp_venue(now: i64) -> VenueView {
    VenueView {
        id: None,
        name: "KEXP Events"@,
        name_lower: "kexp events"@,
        slug: "kexp-events"@,
        address: "472 1st Ave N"@,
        city: "Seattle"@,
        postal_code: "98109"@,
        neighborhood: Some("Lower Queen Anne"@),
        latitude: 47_620_500i64,
        longitude: -122_349_300i64,
        venue_url: Some("https://www.kexp.org/events/"@),
        venue_image_url: None,
        description: Some("KEXP Radio Station and live event venue in Lower Queen Anne"@),
        show_venue: true,
        created_at: now,
    }
}

/// What normalizing a KEXP record gives: for a titled record its event
/// (confidence 900), then the title's artist without an id (850) unless a
/// non-artist event or a seen slug; then the venue (1000) unless emitted
/// before.
pub open spec fn kexp_records(
    out: Seq<NormalizedRecord>,
    source: ParsedRecord,
    non_artist: bool,
    venue_done: bool,
    seen: Set<Seq<char>>,
    today: CalendarDate,
    now: i64,
) -> bool {
    let data = source.record;
    let nv: int = if venue_done { 0 } else { 1 };
    match record_title(data) {
        None => out.len() == nv && (!venue_done ==> normalized_as(out[0], NormalizedEntityView::Venue(kexp_venue(now)), source, now, 1000,
            Seq::empty(), false, "kexp_venue_hardcoded"@)),
        Some(t) => {
            let a = ArtistView { id: None, ..titled_artist(t, now) };
            let new_artist = !non_artist && !seen.contains(a.name_slug);
            let na: int = if new_artist { 1 } else { 0 };
            &&& out.len() == 1 + na + nv
            &&& normalized_as(out[0], NormalizedEntityView::Event(kexp_event(data, t, today, now)), source, now, 900, Seq::empty(), false,
                "kexp_event"@)
            &&& new_artist ==> normalized_as(out[1], NormalizedEntityView::Artist(a), source, now, 850, Seq::empty(), false,
                "kexp_artist_from_title"@)
            &&& !venue_done ==> normalized_as(out[1 + na], NormalizedEntityView::Venue(kexp_venue(now)), source, now, 1000, Seq::empty(),
                false, "kexp_venue_hardcoded"@)
        },
    }
}

fn kexp_day_of(data: &Json, today: CalendarDate) -> (r: CalendarDate)
    ensures
        r == kexp_day(*data, today),
{
    match data.get("date") {
        Some(Json::Str(d)) => match parse_date(d.as_str(), "%B %d, %Y") {
            Ok(x) => x,
            Err(_) => match parse_date(d.as_str(), "%m/%d/%Y") {
                Ok(x) => x,
                Err(_) => match parse_date(d.as_str(), "%Y-%m-%d") {
                    Ok(x) => x,
                    Err(_) => today,
                },
            },
        },
        _ => today,
    }
}

fn kexp_time_of(data: &Json) -> (r: Option<u32>)
    ensures
        r == kexp_time(*data),
{
    match data.get("time") {
        Some(Json::Str(t)) => match parse_time(t.as_str(), "%I:%M %p") {
            Some(x) => Some(x),
            None => parse_time(t.as_str(), "%H:%M"),
        },
        _ => None,
    }
}

fn opt_text(j: Option<&Json>) -> (r: Option<String>)
    ensures
        crate::text::opt_view(r) == json_str(match j { Some(x) => Some(*x), None => None }),
{
    match j {
        Some(Json::Str(s)) => Some(s.clone()),
        _ => None,
    }
}

fn kexp_venue_of(now: i64) -> (r: Venue)
    ensures
        r@ == kexp_venue(now),
{
    Venue {
        id: None,
        name: owned("KEXP Events"),
        name_lower: owned("kexp events"),
        slug: owned("kexp-events"),
        address: owned("472 1st Ave N"),
        city: owned("Seattle"),
        postal_code: owned("98109"),
        neighborhood: Some(owned("Lower Queen Anne")),
        latitude: 47_620_500,
        longitude: -122_349_300,
        venue_url: Some(owned("https://www.kexp.org/events/")),
        venue_image_url: None,
        description: Some(owned("KEXP Radio Station and live event venue in Lower Queen Anne")),
        show_venue: true,
        created_at: now,
    }
}

impl KexpNormalizer {
    /// The normalized records of a KEXP record, `non_artist` telling
    /// whether its title names a non-artist event, `today` standing for a
    /// missing or unreadable day and `now` being the time of normalization;
    /// the venue is emitted once and each artist once per slug.
    pub fn normalize_at(&mut self, record: &ParsedRecord, non_artist: bool, today: CalendarDate, now: i64) -> (r: Vec<NormalizedRecord>)
        ensures
            kexp_records(r@, *record, non_artist, old(self).venue_state.created, old(self).artist_state@, today, now),
            final(self).venue_state.created,
            final(self).artist_state@ == (match record_title(record.record) {
                Some(t) => if non_artist { old(self).artist_state@ } else { old(self).artist_state@.insert(titled_artist(t, now).name_slug) },
                None => old(self).artist_state@,
            }),
    {
        let mut out: Vec<NormalizedRecord> = Vec::new();
        let data = &record.record;
        let ws = no_warnings();
        match text_of(data, &keys3("title", "name", "event_name")) {
            Some(title) => {
                let description = match opt_text(data.get("description")) {
                    Some(d) => Some(d),
                    None => opt_text(data.get("location")),
                };
                let event = Event {
                    id: None,
                    title: title.clone(),
                    event_day: kexp_day_of(data, today),
                    start_time: kexp_time_of(data),
                    event_url: Some(owned("https://www.kexp.org/events/")),
                    description,
                    event_image_url: None,
                    venue_id: 0,
                    artist_ids: Vec::new(),
                    show_event: true,
                    finalized: false,
                    created_at: now,
                };
                proof {
                    assert(event@.artist_ids =~= Seq::<u128>::empty());
                }
                out.push(record_of(NormalizedEntity::Event(event), record, now, 900, &ws, false, "kexp_event"));
                if !non_artist {
                    let mut artist = artist_of_title(title.as_str(), now);
                    artist.id = None;
                    if self.artist_state.should_create_artist(artist.name_slug.as_str()) {
                        out.push(record_of(NormalizedEntity::Artist(artist), record, now, 850, &ws, false, "kexp_artist_from_title"));
                    }
                }
            },
            None => {},
        }
        if self.venue_state.should_create_venue() {
            out.push(record_of(NormalizedEntity::Venue(kexp_venue_of(now)), record, now, 1000, &ws, false, "kexp_venue_hardcoded"));
        }
        out
    }

    /// [`Self::normalize_at`] today at the current time.
    pub fn normalize(&mut self, record: &ParsedRecord, non_artist: bool) -> (r: Vec<NormalizedRecord>)
        ensures
            exists|today: CalendarDate, now: i64| #[trigger] kexp_records(r@, *record, non_artist, old(self).venue_state.created,
                old(self).artist_state@, today, now) && final(self).artist_state@ == (match record_title(record.record) {
                    Some(t) => if non_artist { old(self).artist_state@ } else { old(self).artist_state@.insert(titled_artist(t, now).name_slug) },
                    None => old(self).artist_state@,
                }),
            final(self).venue_state.created,
    {
        let today = today_utc();
        let now = now_ms();
        self.normalize_at(record, non_artist, today, now)
    }
}

impl DarrellsTavernNormalizer {
    /// [`Self::normalize_at`] today at the current time.
    pub fn normalize(&mut self, record: &ParsedRecord, non_artist: bool) -> (r: Vec<NormalizedRecord>)
        ensures
            exists|today: CalendarDate, now: i64| #[trigger] darrells_records(r@, *record, non_artist, old(self).venue_state.created,
                old(self).artist_state@, today, now) && final(self).artist_state@ == (match record_title(record.record) {
                    Some(t) => if non_artist { old(self).artist_state@ } else { old(self).artist_state@.insert(titled_artist(t, now).name_slug) },
                    None => old(self).artist_state@,
                }),
            final(self).venue_state.created,
    {
        let today = today_utc();
        let now = now_ms();
        self.normalize_at(record, non_artist, today, now)
    }
}

/// The text of `data` under `key`, if it has one.
pub open spec fn text_under(data: Json, key: Seq<char>) -> Option<Seq<char>> {
    json_str(json_get(data, key))
}

/// The start of a Conor Byrne event: its `event_time` read as `%I:%M %p`,
/// `%l:%M %p` or `%H:%M`.
pub open spec fn conor_byrne_time(data: Json) -> Option<u32> {
    match text_under(data, "event_time"@) {
        Some(t) => match time_parse_of(t, "%I:%M %p"@) {
            Some(x) => Some(x),
            None => match time_parse_of(t, "%l:%M %p"@) {
                Some(x) => Some(x),
                None => time_parse_of(t, "%H:%M"@),
            },
        },
        None => None,
    }
}

/// The description of a Conor Byrne event: `With <supporting acts>` and
/// `Age: <restriction>`, those that are not empty, joined by ` | `.
pub open spec fn conor_byrne_description(data: Json) -> Option<Seq<char>> {
    let p1: Seq<Seq<char>> = match text_under(data, "supporting_acts"@) {
        Some(s) => if s.len() > 0 { seq!["With "@ + s] } else { Seq::empty() },
        None => Seq::empty(),
    };
    let p2: Seq<Seq<char>> = match text_under(data, "age_restriction"@) {
        Some(a) => if a.len() > 0 { seq!["Age: "@ + a] } else { Seq::empty() },
        None => Seq::empty(),
    };
    if (p1 + p2).len() > 0 { Some(join_spec(p1 + p2, " | "@)) } else { None }
}

/// The supporting acts of a Conor Byrne record: its `supporting_acts` split
/// at `,` and `&`, trimmed, the empty ones dropped.
pub open spec fn conor_byrne_acts(data: Json) -> Seq<Seq<char>> {
    match text_under(data, "supporting_acts"@) {
        Some(s) => non_empty_spec(split2_spec(s, ',', '&').map_values(|x: Seq<char>| trim_spec(x))),
        None => Seq::empty(),
    }
}

/// Whether act `i` names a non-artist event, by `flags` (missing flags
/// say no).
pub open spec fn flagged(flags: Seq<bool>, i: int) -> bool {
    0 <= i < flags.len() && flags[i]
}

/// Going through `acts` with the slugs `seen`: the ids of the artist acts,
/// the artists not seen before (each once), and the slugs seen after.
pub open spec fn acts_outcome(acts: Seq<Seq<char>>, flags: Seq<bool>, seen: Set<Seq<char>>, now: i64) -> (Seq<u128>, Seq<ArtistView>, Set<Seq<char>>)
    decreases acts.len(),
{
    if acts.len() == 0 {
        (Seq::empty(), Seq::empty(), seen)
    } else {
        let (ids, arts, s) = acts_outcome(acts.drop_last(), flags, seen, now);
        let i = acts.len() - 1;
        if flagged(flags, i) {
            (ids, arts, s)
        } else {
            let a = titled_artist(acts[i], now);
            (ids.push(a.id->0), if s.contains(a.name_slug) { arts } else { arts.push(a) }, s.insert(a.name_slug))
        }
    }
}

/// The Conor Byrne venue's id: the name-based id of `conor-byrne-pub`.
pub open spec fn conor_byrne_venue_id() -> u128 {
    uuid_v5_of("conor-byrne-pub"@)
}

/// Conor Byrne Pub, created at `now`.
pub open spec fn conor_byrne_venue(now: i64) -> VenueView {
    VenueView {
        id: Some(conor_byrne_venue_id()),
        name: "Conor Byrne Pub"@,
        name_lower: "conor byrne pub"@,
        slug: "conor-byrne-pub"@,
        address: "5140 Ballard Ave NW"@,
        city: "Seattle"@,
        postal_code: "98107"@,
        neighborhood: Some("Ballard"@),
        latitude: 47_668_600i64,
        longitude: -122_384_200i64,
        venue_url: Some("https://www.conorbyrnepub.com"@),
        venue_image_url: None,
        description: Some("Historic Irish pub featuring live music in the heart of Ballard"@),
        show_venue: true,
        created_at: now,
    }
}

/// The Conor Byrne event titled `title` with its artists.
pub open spec fn conor_byrne_event(data: Json, title: Seq<char>, artist_ids: Seq<u128>, today: CalendarDate, now: i64) -> EventView {
    EventView {
        id: None,
        title,
        event_day: record_day(data, today),
        start_time: conor_byrne_time(data),
        event_url: match text_under(data, "event_url"@) {
            Some(u) => Some(u),
            None => Some("https://www.conorbyrnepub.com"@),
        },
        description: conor_byrne_description(data),
        event_image_url: text_under(data, "image_url"@),
        venue_id: conor_byrne_venue_id(),
        artist_ids,
        show_event: true,
        finalized: false,
        created_at: now,
    }
}

/// The artist records `out[from..from + arts.len()]` are those of `arts`.
pub open spec fn artist_records_at(out: Seq<NormalizedRecord>, from: int, arts: Seq<ArtistView>, source: ParsedRecord, now: i64, confidence: u32,
    strategy: Seq<char>) -> bool {
    forall|k: int| 0 <= k < arts.len() ==> normalized_as(#[trigger] out[from + k], NormalizedEntityView::Artist(arts[k]), source, now, confidence,
        Seq::empty(), false, strategy)
}

/// What normalizing a Conor Byrne record gives, for a normalizer that has
/// emitted the venue when `venue_done` and the artist slugs `seen`: for a
/// titled record, the headliner (the title; confidence 900) unless a
/// non-artist event or seen, then each supporting act not flagged as a
/// non-artist event and not seen before (850), then the event (950) linked to
/// every artist act and to the venue; then the venue (1000) unless emitted
/// before.
pub open spec fn conor_byrne_records(
    out: Seq<NormalizedRecord>,
    source: ParsedRecord,
    title_non_artist: bool,
    act_flags: Seq<bool>,
    venue_done: bool,
    seen: Set<Seq<char>>,
    today: CalendarDate,
    now: i64,
) -> bool {
    let data = source.record;
    let nv: int = if venue_done { 0 } else { 1 };
    match record_title(data) {
        None => out.len() == nv && (!venue_done ==> normalized_as(out[0], NormalizedEntityView::Venue(conor_byrne_venue(now)), source, now, 1000,
            Seq::empty(), false, "conor_byrne_venue_hardcoded"@)),
        Some(t) => {
            let h = titled_artist(t, now);
            let new_h = !title_non_artist && !seen.contains(h.name_slug);
            let nh: int = if new_h { 1 } else { 0 };
            let seen1 = if title_non_artist { seen } else { seen.insert(h.name_slug) };
            let ids0: Seq<u128> = if title_non_artist { Seq::empty() } else { seq![h.id->0] };
            let (ids, arts, _) = acts_outcome(conor_byrne_acts(data), act_flags, seen1, now);
            let ne: int = nh + arts.len();
            &&& out.len() == ne + 1 + nv
            &&& new_h ==> normalized_as(out[0], NormalizedEntityView::Artist(h), source, now, 900, Seq::empty(), false,
                "conor_byrne_artist_headliner"@)
            &&& artist_records_at(out, nh, arts, source, now, 850, "conor_byrne_artist_supporting"@)
            &&& normalized_as(out[ne], NormalizedEntityView::Event(conor_byrne_event(data, t, ids0 + ids, today, now)), source, now, 950,
                Seq::empty(), false, "conor_byrne_event"@)
            &&& !venue_done ==> normalized_as(out[ne + 1], NormalizedEntityView::Venue(conor_byrne_venue(now)), source, now, 1000, Seq::empty(),
                false, "conor_byrne_venue_hardcoded"@)
        },
    }
}

/// The slugs a Conor Byrne record adds to those seen.
pub open spec fn conor_byrne_seen_after(source: ParsedRecord, title_non_artist: bool, act_flags: Seq<bool>, seen: Set<Seq<char>>, now: i64) -> Set<Seq<char>> {
    match record_title(source.record) {
        None => seen,
        Some(t) => {
            let seen1 = if title_non_artist { seen } else { seen.insert(titled_artist(t, now).name_slug) };
            acts_outcome(conor_byrne_acts(source.record), act_flags, seen1, now).2
        },
    }
}

fn text_under_of(data: &Json, key: &str) -> (r: Option<String>)
    ensures
        crate::text::opt_view(r) == text_under(*data, key@),
{
    match data.get(key) {
        Some(Json::Str(s)) => Some(s.clone()),
        _ => None,
    }
}

fn conor_byrne_time_of(data: &Json) -> (r: Option<u32>)
    ensures
        r == conor_byrne_time(*data),
{
    match text_under_of(data, "event_time") {
        Some(t) => match parse_time(t.as_str(), "%I:%M %p") {
            Some(x) => Some(x),
            None => match parse_time(t.as_str(), "%l:%M %p") {
                Some(x) => Some(x),
                None => parse_time(t.as_str(), "%H:%M"),
            },
        },
        None => None,
    }
}

fn prefixed_text(prefix: &str, s: &str) -> (r: String)
    ensures
        r@ == prefix@ + s@,
{
    let mut r = owned(prefix);
    r.append(s);
    r
}

fn conor_byrne_description_of(data: &Json) -> (r: Option<String>)
    ensures
        crate::text::opt_view(r) == conor_byrne_description(*data),
{
    let mut parts: Vec<String> = Vec::new();
    let ghost p1: Seq<Seq<char>> = match text_under(*data, "supporting_acts"@) {
        Some(s) => if s.len() > 0 { seq!["With "@ + s] } else { Seq::empty() },
        None => Seq::empty(),
    };
    let ghost p2: Seq<Seq<char>> = match text_under(*data, "age_restriction"@) {
        Some(a) => if a.len() > 0 { seq!["Age: "@ + a] } else { Seq::empty() },
        None => Seq::empty(),
    };
    match text_under_of(data, "supporting_acts") {
        Some(s) => if s.unicode_len() > 0 {
            parts.push(prefixed_text("With ", s.as_str()));
        },
        None => {},
    }
    assert(parts@.map_values(|x: String| x@) =~= p1);
    match text_under_of(data, "age_restriction") {
        Some(a) => if a.unicode_len() > 0 {
            parts.push(prefixed_text("Age: ", a.as_str()));
        },
        None => {},
    }
    assert(parts@.map_values(|x: String| x@) =~= p1 + p2);
    if parts.len() > 0 {
        Some(join(&parts, " | "))
    } else {
        None
    }
}

fn conor_byrne_acts_of(data: &Json) -> (r: Vec<String>)
    ensures
        r@.map_values(|s: String| s@) == conor_byrne_acts(*data),
{
    match text_under_of(data, "supporting_acts") {
        Some(s) => {
            let pieces = split_at_either(s.as_str(), ',', '&');
            let trimmed = trim_each(&pieces);
            assert(pieces@.map_values(|x: String| trim_spec(x@)) =~= pieces@.map_values(|x: String| x@).map_values(|x: Seq<char>| trim_spec(x)));
            non_empty(trimmed)
        },
        None => {
            let r: Vec<String> = Vec::new();
            assert(r@.map_values(|s: String| s@) =~= Seq::<Seq<char>>::empty());
            r
        },
    }
}

fn conor_byrne_venue_of(now: i64) -> (r: Venue)
    ensures
        r@ == conor_byrne_venue(now),
{
    Venue {
        id: Some(uuid_v5_dns("conor-byrne-pub")),
        name: owned("Conor Byrne Pub"),
        name_lower: owned("conor byrne pub"),
        slug: owned("conor-byrne-pub"),
        address: owned("5140 Ballard Ave NW"),
        city: owned("Seattle"),
        postal_code: owned("98107"),
        neighborhood: Some(owned("Ballard")),
        latitude: 47_668_600,
        longitude: -122_384_200,
        venue_url: Some(owned("https://www.conorbyrnepub.com")),
        venue_image_url: None,
        description: Some(owned("Historic Irish pub featuring live music in the heart of Ballard")),
        show_venue: true,
        created_at: now,
    }
}

fn flag_at(flags: &Vec<bool>, i: usize) -> (r: bool)
    ensures
        r == flagged(flags@, i as int),
{
    i < flags.len() && flags[i]
}

impl ConorByrneNormalizer {
    /// The normalized records of a Conor Byrne record: `title_non_artist`
    /// tells whether its title names a non-artist event, `act_flags[i]`
    /// whether its `i`-th supporting act does (missing flags say no),
    /// `today` stands for a missing or unreadable day and `now` is the time
    /// of normalization; the venue is emitted once and each artist once per
    /// slug.
    #[verifier::rlimit(60)]
    pub fn normalize_at(
        &mut self,
        record: &ParsedRecord,
        title_non_artist: bool,
        act_flags: &Vec<bool>,
        today: CalendarDate,
        now: i64,
    ) -> (r: Vec<NormalizedRecord>)
        ensures
            conor_byrne_records(r@, *record, title_non_artist, act_flags@, old(self).venue_state.created, old(self).artist_state@, today, now),
            final(self).venue_state.created,
            final(self).artist_state@ == conor_byrne_seen_after(*record, title_non_artist, act_flags@, old(self).artist_state@, now),
    {
        let mut out: Vec<NormalizedRecord> = Vec::new();
        let data = &record.record;
        let ws = no_warnings();
        let ghost seen0 = self.artist_state@;
        match text_of(data, &keys3("title", "name", "event_name")) {
            Some(title) => {
                let ghost t = title@;
                let ghost h = titled_artist(t, now);
                let mut ids: Vec<u128> = Vec::new();
                if !title_non_artist {
                    let artist = artist_of_title(title.as_str(), now);
                    let id = match artist.id {
                        Some(k) => k,
                        None => 0,
                    };
                    ids.push(id);
                    if self.artist_state.should_create_artist(artist.name_slug.as_str()) {
                        out.push(record_of(NormalizedEntity::Artist(artist), record, now, 900, &ws, false, "conor_byrne_artist_headliner"));
                    }
                }
                let ghost nh: int = out@.len() as int;
                let ghost ids0 = ids@;
                let ghost seen1 = self.artist_state@;
                assert(seen1 == (if title_non_artist { seen0 } else { seen0.insert(h.name_slug) }));
                let acts = conor_byrne_acts_of(data);
                let ghost av = acts@.map_values(|s: String| s@);
                let mut i: usize = 0;
                while i < acts.len()
                    invariant
                        i <= acts@.len(),
                        av == acts@.map_values(|s: String| s@),
                        av == conor_byrne_acts(*data),
                        nh == (if !title_non_artist && !seen0.contains(h.name_slug) { 1int } else { 0int }),
                        nh <= out@.len(),
                        ({
                            let (xi, xa, xs) = acts_outcome(av.subrange(0, i as int), act_flags@, seen1, now);
                            &&& ids@ == ids0 + xi
                            &&& out@.len() == nh + xa.len()
                            &&& artist_records_at(out@, nh, xa, *record, now, 850, "conor_byrne_artist_supporting"@)
                            &&& self.artist_state@ == xs
                        }),
                        !self.venue_state.created == !old(self).venue_state.created,
                        nh == 1 ==> normalized_as(out@[0], NormalizedEntityView::Artist(h), *record, now, 900, Seq::empty(), false,
                            "conor_byrne_artist_headliner"@),
                        views_empty(ws),
                    decreases acts@.len() - i,
                {
                    let ghost pre = av.subrange(0, i + 1);
                    assert(pre.drop_last() =~= av.subrange(0, i as int));
                    let ghost before = out@;
                    if !flag_at(act_flags, i) {
                        let artist = artist_of_title(acts[i].as_str(), now);
                        let id = match artist.id {
                            Some(k) => k,
                            None => 0,
                        };
                        ids.push(id);
                        if self.artist_state.should_create_artist(artist.name_slug.as_str()) {
                            out.push(record_of(NormalizedEntity::Artist(artist), record, now, 850, &ws, false, "conor_byrne_artist_supporting"));
                        }
                    }
                    proof {
                        let (xi, xa, xs) = acts_outcome(av.subrange(0, i as int), act_flags@, seen1, now);
                        let (yi, ya, ys) = acts_outcome(pre, act_flags@, seen1, now);
                        assert(pre[i as int] == av[i as int]);
                        assert forall|k: int| 0 <= k < ya.len() implies normalized_as(#[trigger] out@[nh + k], NormalizedEntityView::Artist(ya[k]),
                            *record, now, 850, Seq::empty(), false, "conor_byrne_artist_supporting"@) by {
                            if k < xa.len() {
                                assert(out@[nh + k] == before[nh + k]);
                                assert(ya[k] == xa[k]);
                            }
                        }
                        assert(ids@ =~= ids0 + yi);
                    }
                    i = i + 1;
                }
                assert(av.subrange(0, acts@.len() as int) =~= av);
                let event = Event {
                    id: None,
                    title: title.clone(),
                    event_day: record_day_of(data, today),
                    start_time: conor_byrne_time_of(data),
                    event_url: match text_under_of(data, "event_url") {
                        Some(u) => Some(u),
                        None => Some(owned("https://www.conorbyrnepub.com")),
                    },
                    description: conor_byrne_description_of(data),
                    event_image_url: text_under_of(data, "image_url"),
                    venue_id: uuid_v5_dns("conor-byrne-pub"),
                    artist_ids: ids,
                    show_event: true,
                    finalized: false,
                    created_at: now,
                };
                let ghost before = out@;
                out.push(record_of(NormalizedEntity::Event(event), record, now, 950, &ws, false, "conor_byrne_event"));
                proof {
                    let (xi, xa, xs) = acts_outcome(av, act_flags@, seen1, now);
                    assert forall|k: int| 0 <= k < xa.len() implies normalized_as(#[trigger] out@[nh + k], NormalizedEntityView::Artist(xa[k]),
                        *record, now, 850, Seq::empty(), false, "conor_byrne_artist_supporting"@) by {
                        assert(out@[nh + k] == before[nh + k]);
                    }
                }
            },
            None => {},
        }
        let ghost before = out@;
        if self.venue_state.should_create_venue() {
            out.push(record_of(NormalizedEntity::Venue(conor_byrne_venue_of(now)), record, now, 1000, &ws, false, "conor_byrne_venue_hardcoded"));
        }
        proof {
            match record_title(record.record) {
                Some(t) => {
                    let h = titled_artist(t, now);
                    let seen1 = if title_non_artist { seen0 } else { seen0.insert(h.name_slug) };
                    let (xi, xa, xs) = acts_outcome(conor_byrne_acts(record.record), act_flags@, seen1, now);
                    let nh: int = if !title_non_artist && !seen0.contains(h.name_slug) { 1 } else { 0 };
                    assert forall|k: int| 0 <= k < xa.len() implies normalized_as(#[trigger] out@[nh + k], NormalizedEntityView::Artist(xa[k]),
                        *record, now, 850, Seq::empty(), false, "conor_byrne_artist_supporting"@) by {
                        assert(out@[nh + k] == before[nh + k]);
                    }
                },
                None => {},
            }
        }
        out
    }

    /// [`Self::normalize_at`] today at the current time.
    pub fn normalize(&mut self, record: &ParsedRecord, title_non_artist: bool, act_flags: &Vec<bool>) -> (r: Vec<NormalizedRecord>)
        ensures
            exists|today: CalendarDate, now: i64| #[trigger] conor_byrne_records(r@, *record, title_non_artist, act_flags@,
                old(self).venue_state.created, old(self).artist_state@, today, now)
                && final(self).artist_state@ == conor_byrne_seen_after(*record, title_non_artist, act_flags@, old(self).artist_state@, now),
            final(self).venue_state.created,
    {
        let today = today_utc();
        let now = now_ms();
        self.normalize_at(record, title_non_artist, act_flags, today, now)
    }
}

/// No warnings.
pub open spec fn views_empty(ws: Vec<String>) -> bool {
    crate::metrics::views_of(ws@) == Seq::<Seq<char>>::empty()
}

/// The slug of an artist record.
pub open spec fn record_slug(r: NormalizedRecord) -> Option<Seq<char>> {
    match r.entity@ {
        NormalizedEntityView::Artist(a) => Some(a.name_slug),
        _ => None,
    }
}

proof fn lemma_acts_outcome(acts: Seq<Seq<char>>, flags: Seq<bool>, seen: Set<Seq<char>>, now: i64)
    ensures
        ({
            let (ids, arts, after) = acts_outcome(acts, flags, seen, now);
            &&& forall|x: Seq<char>| seen.contains(x) ==> after.contains(x)
            &&& forall|k: int| 0 <= k < arts.len() ==> !seen.contains(#[trigger] arts[k].name_slug) && after.contains(arts[k].name_slug)
            &&& forall|k1: int, k2: int| 0 <= k1 < k2 < arts.len() ==> #[trigger] arts[k1].name_slug != #[trigger] arts[k2].name_slug
        }),
    decreases acts.len(),
{
    if acts.len() > 0 {
        lemma_acts_outcome(acts.drop_last(), flags, seen, now);
        let (ids0, arts0, s0) = acts_outcome(acts.drop_last(), flags, seen, now);
        let (ids, arts, after) = acts_outcome(acts, flags, seen, now);
        if !flagged(flags, acts.len() - 1) {
            let a = titled_artist(acts[acts.len() - 1], now);
            if !s0.contains(a.name_slug) {
                assert(arts == arts0.push(a));
                assert forall|k1: int, k2: int| 0 <= k1 < k2 < arts.len() implies #[trigger] arts[k1].name_slug != #[trigger] arts[k2].name_slug by {
                    if k2 == arts0.len() {
                        assert(s0.contains(arts0[k1].name_slug));
                    } else {
                        assert(arts[k1] == arts0[k1] && arts[k2] == arts0[k2]);
                    }
                }
                assert forall|k: int| 0 <= k < arts.len() implies !seen.contains(#[trigger] arts[k].name_slug) && after.contains(arts[k].name_slug) by {
                    if k < arts0.len() {
                        assert(arts[k] == arts0[k]);
                    }
                }
            }
        }
    }
}

/// What one Conor Byrne normalization keeps of the normalizer's promises:
/// a venue only when none was emitted before, and then one; artists only
/// under slugs not seen before, each slug once, all seen afterwards; the
/// slugs seen before stay seen; every event and the venue carry the
/// venue's name-based id.
pub proof fn lemma_conor_byrne_call(
    out: Seq<NormalizedRecord>,
    source: ParsedRecord,
    title_non_artist: bool,
    act_flags: Seq<bool>,
    venue_done: bool,
    seen: Set<Seq<char>>,
    today: CalendarDate,
    now: i64,
)
    requires
        conor_byrne_records(out, source, title_non_artist, act_flags, venue_done, seen, today, now),
    ensures
        forall|k: int| 0 <= k < out.len() && (#[trigger] out[k]).entity@ is Venue ==> !venue_done,
        !venue_done ==> exists|k: int| 0 <= k < out.len() && (#[trigger] out[k]).entity@ is Venue,
        forall|k1: int, k2: int| 0 <= k1 < k2 < out.len() && (#[trigger] out[k1]).entity@ is Venue ==> !((#[trigger] out[k2]).entity@ is Venue),
        forall|x: Seq<char>| seen.contains(x) ==> conor_byrne_seen_after(source, title_non_artist, act_flags, seen, now).contains(x),
        forall|k: int| 0 <= k < out.len() && #[trigger] record_slug(out[k]) is Some ==> !seen.contains(record_slug(out[k])->0)
            && conor_byrne_seen_after(source, title_non_artist, act_flags, seen, now).contains(record_slug(out[k])->0),
        forall|k1: int, k2: int| 0 <= k1 < k2 < out.len() && #[trigger] record_slug(out[k1]) is Some ==> #[trigger] record_slug(out[k2])
            != record_slug(out[k1]),
        forall|k: int| 0 <= k < out.len() ==> ((#[trigger] out[k]).entity@ matches NormalizedEntityView::Event(e) ==> e.venue_id
            == conor_byrne_venue_id()),
        forall|k: int| 0 <= k < out.len() ==> ((#[trigger] out[k]).entity@ matches NormalizedEntityView::Venue(v) ==> v.id
            == Some(conor_byrne_venue_id())),
{
    let data = source.record;
    let after = conor_byrne_seen_after(source, title_non_artist, act_flags, seen, now);
    match record_title(data) {
        None => {
            if !venue_done {
                assert(out[0].entity@ is Venue);
            }
        },
        Some(t) => {
            let h = titled_artist(t, now);
            let new_h = !title_non_artist && !seen.contains(h.name_slug);
            let nh: int = if new_h { 1 } else { 0 };
            let seen1 = if title_non_artist { seen } else { seen.insert(h.name_slug) };
            let (ids, arts, s) = acts_outcome(conor_byrne_acts(data), act_flags, seen1, now);
            lemma_acts_outcome(conor_byrne_acts(data), act_flags, seen1, now);
            let ne: int = nh + arts.len();
            assert(after == s);
            // What sits at each position.
            assert forall|k: int| 0 <= k < out.len() implies {
                &&& (k < nh ==> out[k].entity@ == NormalizedEntityView::Artist(h))
                &&& (nh <= k < ne ==> out[k].entity@ == NormalizedEntityView::Artist(arts[k - nh]))
                &&& (k == ne ==> out[k].entity@ is Event && out[k].entity@->Event_0.venue_id == conor_byrne_venue_id())
                &&& (k == ne + 1 ==> out[k].entity@ == NormalizedEntityView::Venue(conor_byrne_venue(now)))
            } by {
                if nh <= k < ne {
                    assert(out[k] == out[nh + (k - nh)]);
                }
            }
            if !venue_done {
                assert(out[ne + 1].entity@ is Venue);
            }
            assert forall|k: int| 0 <= k < out.len() && #[trigger] record_slug(out[k]) is Some implies !seen.contains(record_slug(out[k])->0)
                && after.contains(record_slug(out[k])->0) by {
                if nh <= k < ne {
                    assert(arts[k - nh] == arts[k - nh]);
                }
            }
            assert forall|k1: int, k2: int| 0 <= k1 < k2 < out.len() && #[trigger] record_slug(out[k1]) is Some implies #[trigger] record_slug(
                out[k2],
            ) != record_slug(out[k1]) by {
                if k2 < ne && record_slug(out[k2]) == record_slug(out[k1]) {
                    if k1 < nh {
                        assert(seen1.contains(h.name_slug));
                        assert(!seen1.contains(arts[k2 - nh].name_slug));
                    } else {
                        assert(arts[k1 - nh].name_slug != arts[k2 - nh].name_slug);
                    }
                }
            }
        },
    }
}

/// Across two successive normalizations by one Conor Byrne normalizer (the
/// second starting where the first left its venue flag and seen slugs),
/// the second emits no venue and no artist slug appears in both results.
pub proof fn lemma_conor_byrne_two_calls(
    out1: Seq<NormalizedRecord>,
    out2: Seq<NormalizedRecord>,
    source1: ParsedRecord,
    source2: ParsedRecord,
    title_non_artist1: bool,
    title_non_artist2: bool,
    act_flags1: Seq<bool>,
    act_flags2: Seq<bool>,
    venue_done: bool,
    seen: Set<Seq<char>>,
    today: CalendarDate,
    now1: i64,
    now2: i64,
)
    requires
        conor_byrne_records(out1, source1, title_non_artist1, act_flags1, venue_done, seen, today, now1),
        conor_byrne_records(out2, source2, title_non_artist2, act_flags2, true,
            conor_byrne_seen_after(source1, title_non_artist1, act_flags1, seen, now1), today, now2),
    ensures
        forall|k: int| 0 <= k < out2.len() ==> !((#[trigger] out2[k]).entity@ is Venue),
        forall|k1: int, k2: int| 0 <= k1 < out1.len() && 0 <= k2 < out2.len() && #[trigger] record_slug(out1[k1]) is Some
            ==> #[trigger] record_slug(out2[k2]) != record_slug(out1[k1]),
{
    lemma_conor_byrne_call(out1, source1, title_non_artist1, act_flags1, venue_done, seen, today, now1);
    let seen2 = conor_byrne_seen_after(source1, title_non_artist1, act_flags1, seen, now1);
    lemma_conor_byrne_call(out2, source2, title_non_artist2, act_flags2, true, seen2, today, now2);
    assert forall|k1: int, k2: int| 0 <= k1 < out1.len() && 0 <= k2 < out2.len() && #[trigger] record_slug(out1[k1]) is Some
        implies #[trigger] record_slug(out2[k2]) != record_slug(out1[k1]) by {
        assert(seen2.contains(record_slug(out1[k1])->0));
        if record_slug(out2[k2]) is Some {
            assert(!seen2.contains(record_slug(out2[k2])->0));
        }
    }
}

} // verus!
