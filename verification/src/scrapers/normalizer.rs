//! Conor Byrne Pub: its raw events normalized into shows, the venue and the
//! billed artists. Each entity is identified by the text its deterministic
//! id is generated from (its id seed).

use crate::calendar::{date_format, date_text, date_text_of, datetime_parse_of, now_ms, pacific_utc, pacific_utc_of, parse_datetime};
use crate::domain::CalendarDate;
use crate::scrapers::conor_byrne::{RawArtist, RawEvent, ScraperError};
use crate::text::{lowercase_of, opt_clone, opt_view, owned, replace_spec, replace_str, str_eq, to_lowercase, trim_spec, trim_str};
use vstd::prelude::*;

verus! {

/// A show at the pub.
#[derive(Debug)]
pub struct Show {
    pub id_seed: String,
    pub venue_id_seed: String,
    pub title: String,
    /// Start, seconds since the Unix epoch (UTC).
    pub starts_at: i64,
    pub artist_id_seeds: Vec<String>,
    pub description: Option<String>,
    pub ticket_link: Option<String>,
    /// The price text with `$` and `,` removed and trimmed; the host reads
    /// the number from it.
    pub price_text: Option<String>,
    pub age_restriction: Option<String>,
    pub created_at: i64,
    pub updated_at: i64,
}

/// An artist billed at a show.
#[derive(Debug)]
pub struct BilledArtist {
    pub id_seed: String,
    pub name: String,
    pub url: Option<String>,
    pub created_at: i64,
    pub updated_at: i64,
}

/// The pub itself.
#[derive(Debug)]
pub struct ShowVenue {
    pub id_seed: String,
    pub name: String,
    pub address: Option<String>,
    pub city: Option<String>,
    pub state: Option<String>,
    pub zip: Option<String>,
    pub country: Option<String>,
    pub url: Option<String>,
    pub phone: Option<String>,
    pub capacity: Option<u32>,
    pub created_at: i64,
    pub updated_at: i64,
}

/// The id text of a name: lowercased, spaces turned into dashes.
pub open spec fn seed_text(s: Seq<char>) -> Seq<char> {
    replace_spec(lowercase_of(s), " "@, "-"@)
}

/// The id seed of an artist.
pub open spec fn artist_seed(name: Seq<char>) -> Seq<char> {
    "artist-"@ + seed_text(name)
}

/// The id seed of a show: its title and its date.
pub open spec fn show_seed(title: Seq<char>, date: CalendarDate) -> Seq<char> {
    "conor-byrne-"@ + seed_text(title) + "-"@ + date_format(date.year, date.month, date.day)
}

/// A price text without `$` and `,`, trimmed.
pub open spec fn price_text(p: Seq<char>) -> Seq<char> {
    trim_spec(replace_spec(replace_spec(p, "$"@, ""@), ","@, ""@))
}

/// When a show starts, or why that cannot be read: its time
/// (`%Y-%m-%d %H:%M:%S`) or else 7 pm on its date, as local time in the
/// `US/Pacific` zone.
pub open spec fn show_start(e: RawEvent) -> Result<i64, Seq<char>> {
    if date_text_of(e.date.year, e.date.month, e.date.day) is None {
        Err("Invalid event date"@)
    } else {
        match e.time {
            Some(t) => match datetime_parse_of(t@, "%Y-%m-%d %H:%M:%S"@) {
                Err(m) => Err("Failed to parse datetime: "@ + m),
                Ok((y, mo, d, s)) => match pacific_utc_of(y, mo, d, s) {
                    Some(u) => Ok(u),
                    None => Err("Failed to convert to Pacific time"@),
                },
            },
            None => match pacific_utc_of(e.date.year, e.date.month, e.date.day, 68_400) {
                Some(u) => Ok(u),
                None => Err("Failed to convert to Pacific time"@),
            },
        }
    }
}

/// The show of a raw event that starts at `start`, made at `now`.
pub open spec fn show_ok(s: Show, e: RawEvent, start: i64, now: i64) -> bool {
    &&& s.id_seed@ == show_seed(e.title@, e.date)
    &&& s.venue_id_seed@ == "conor-byrne"@
    &&& s.title@ == e.title@
    &&& s.starts_at == start
    &&& s.artist_id_seeds@.map_values(|x: String| x@) == e.artists@.map_values(|a: RawArtist| artist_seed(a.name@))
    &&& opt_view(s.description) == opt_view(e.description)
    &&& opt_view(s.ticket_link) == opt_view(e.ticket_link)
    &&& opt_view(s.price_text) == (match e.price {
        Some(p) => Some(price_text(p@)),
        None => None::<Seq<char>>,
    })
    &&& opt_view(s.age_restriction) == opt_view(e.age_restriction)
    &&& s.created_at == now && s.updated_at == now
}

/// Name and link of an artist.
pub open spec fn raw_artist_view(a: RawArtist) -> (Seq<char>, Option<Seq<char>>) {
    (a.name@, opt_view(a.url))
}

/// The billing of the events: every artist of every event, in order.
pub open spec fn billing(es: Seq<RawEvent>) -> Seq<(Seq<char>, Option<Seq<char>>)>
    decreases es.len(),
{
    if es.len() == 0 {
        Seq::empty()
    } else {
        billing(es.drop_last()) + es.last().artists@.map_values(|a: RawArtist| raw_artist_view(a))
    }
}

/// Whether an artist with this seed is among `u`.
pub open spec fn seed_seen(u: Seq<(Seq<char>, Option<Seq<char>>)>, seed: Seq<char>) -> bool {
    exists|k: int| 0 <= k < u.len() && artist_seed(#[trigger] u[k].0) == seed
}

/// The first artist of the billing for each seed, in order.
pub open spec fn unique_billing(l: Seq<(Seq<char>, Option<Seq<char>>)>) -> Seq<(Seq<char>, Option<Seq<char>>)>
    decreases l.len(),
{
    if l.len() == 0 {
        Seq::empty()
    } else {
        let u = unique_billing(l.drop_last());
        if seed_seen(u, artist_seed(l.last().0)) {
            u
        } else {
            u.push(l.last())
        }
    }
}

/// Name and link of a billed artist.
pub open spec fn billed_view(a: BilledArtist) -> (Seq<char>, Option<Seq<char>>) {
    (a.name@, opt_view(a.url))
}

/// Conor Byrne Pub, made at `now`.
pub open spec fn show_venue_ok(v: ShowVenue, now: i64) -> bool {
    &&& v.id_seed@ == "conor-byrne"@
    &&& v.name@ == "Conor Byrne Pub"@
    &&& opt_view(v.address) == Some("5140 Ballard Ave NW"@)
    &&& opt_view(v.city) == Some("Seattle"@)
    &&& opt_view(v.state) == Some("WA"@)
    &&& opt_view(v.zip) == Some("98107"@)
    &&& opt_view(v.country) == Some("USA"@)
    &&& opt_view(v.url) == Some("https://www.conorbyrnepub.com"@)
    &&& opt_view(v.phone) == Some("206-784-3640"@)
    &&& v.capacity is None
    &&& v.created_at == now && v.updated_at == now
}

fn seed_text_of(s: &str) -> (r: String)
    ensures
        r@ == seed_text(s@),
{
    proof {
        reveal_strlit(" ");
    }
    let l = to_lowercase(s);
    replace_str(l.as_str(), " ", "-")
}

fn artist_seed_of(name: &str) -> (r: String)
    ensures
        r@ == artist_seed(name@),
{
    let mut r = owned("artist-");
    let t = seed_text_of(name);
    r.append(t.as_str());
    r
}

fn price_text_of(p: &str) -> (r: String)
    ensures
        r@ == price_text(p@),
{
    proof {
        reveal_strlit("$");
        reveal_strlit(",");
    }
    let a = replace_str(p, "$", "");
    let b = replace_str(a.as_str(), ",", "");
    trim_str(b.as_str())
}

fn show_start_of(e: &RawEvent) -> (r: Result<i64, String>)
    ensures
        match r {
            Ok(u) => show_start(*e) == Ok::<i64, Seq<char>>(u),
            Err(m) => show_start(*e) == Err::<i64, Seq<char>>(m@),
        },
{
    if date_text(e.date).is_none() {
        return Err(owned("Invalid event date"));
    }
    match &e.time {
        Some(t) => match parse_datetime(t.as_str(), "%Y-%m-%d %H:%M:%S") {
            Err(m) => {
                let mut r = owned("Failed to parse datetime: ");
                r.append(m.as_str());
                Err(r)
            },
            Ok((d, s)) => match pacific_utc(d, s) {
                Some(u) => Ok(u),
                None => Err(owned("Failed to convert to Pacific time")),
            },
        },
        None => match pacific_utc(e.date, 68_400) {
            Some(u) => Ok(u),
            None => Err(owned("Failed to convert to Pacific time")),
        },
    }
}

fn seed_listed(artists: &Vec<BilledArtist>, seed: &String) -> (r: bool)
    requires
        forall|k: int| 0 <= k < artists@.len() ==> (#[trigger] artists@[k]).id_seed@ == artist_seed(artists@[k].name@),
    ensures
        r == seed_seen(artists@.map_values(|a: BilledArtist| billed_view(a)), seed@),
{
    let ghost u = artists@.map_values(|a: BilledArtist| billed_view(a));
    let mut k: usize = 0;
    while k < artists.len()
        invariant
            k <= artists@.len(),
            u == artists@.map_values(|a: BilledArtist| billed_view(a)),
            forall|q: int| 0 <= q < artists@.len() ==> (#[trigger] artists@[q]).id_seed@ == artist_seed(artists@[q].name@),
            forall|q: int| 0 <= q < k ==> artist_seed(#[trigger] u[q].0) != seed@,
        decreases artists@.len() - k,
    {
        assert(u[k as int].0 == artists@[k as int].name@);
        if str_eq(artists[k].id_seed.as_str(), seed.as_str()) {
            return true;
        }
        k = k + 1;
    }
    false
}

/// The venue record of the pub.
pub fn create_venue(now: i64) -> (r: ShowVenue)
    ensures
        show_venue_ok(r, now),
{
    ShowVenue {
        id_seed: owned("conor-byrne"),
        name: owned("Conor Byrne Pub"),
        address: Some(owned("5140 Ballard Ave NW")),
        city: Some(owned("Seattle")),
        state: Some(owned("WA")),
        zip: Some(owned("98107")),
        country: Some(owned("USA")),
        url: Some(owned("https://www.conorbyrnepub.com")),
        phone: Some(owned("206-784-3640")),
        capacity: None,
        created_at: now,
        updated_at: now,
    }
}

/// The normalizer of the pub's raw events.
pub struct ConorByrneNormalizer;

impl ConorByrneNormalizer {
    /// The normalizer.
    pub fn new() -> (r: Self) {
        ConorByrneNormalizer
    }

    /// The shows of the raw events, in order, the pub as their venue, and
    /// each artist billed once (by seed, the first billing's name and link),
    /// all made at `now`; or the error of the first event whose start cannot
    /// be read.
    pub fn normalize_events_at(&self, raw_events: Vec<RawEvent>, now: i64)
        -> (r: Result<(Vec<Show>, Vec<ShowVenue>, Vec<BilledArtist>), ScraperError>)
        ensures
            (r is Ok) == (forall|i: int| 0 <= i < raw_events@.len() ==> #[trigger] show_start(raw_events@[i]) is Ok),
            r matches Err(ScraperError::ParseError(m)) ==> exists|i: int| 0 <= i < raw_events@.len()
                && (forall|j: int| 0 <= j < i ==> #[trigger] show_start(raw_events@[j]) is Ok)
                && #[trigger] show_start(raw_events@[i]) == Err::<i64, Seq<char>>(m@),
            r matches Ok((shows, venues, artists)) ==> {
                &&& shows@.len() == raw_events@.len()
                &&& forall|i: int| 0 <= i < raw_events@.len() ==> show_ok(#[trigger] shows@[i], raw_events@[i],
                    show_start(raw_events@[i])->Ok_0, now)
                &&& venues@.len() == 1 && show_venue_ok(venues@[0], now)
                &&& artists@.map_values(|a: BilledArtist| billed_view(a)) == unique_billing(billing(raw_events@))
                &&& forall|k: int| 0 <= k < artists@.len() ==> (#[trigger] artists@[k]).id_seed@ == artist_seed(artists@[k].name@)
                    && artists@[k].created_at == now && artists@[k].updated_at == now
            },
    {
        let ghost raws = raw_events@;
        let mut shows: Vec<Show> = Vec::new();
        let mut artists: Vec<BilledArtist> = Vec::new();
        let mut i: usize = 0;
        assert(raws.subrange(0, 0) =~= Seq::<RawEvent>::empty());
        assert(artists@.map_values(|a: BilledArtist| billed_view(a)) =~= Seq::<(Seq<char>, Option<Seq<char>>)>::empty());
        while i < raw_events.len()
            invariant
                raws == raw_events@,
                i <= raws.len(),
                forall|j: int| 0 <= j < i ==> #[trigger] show_start(raws[j]) is Ok,
                shows@.len() == i,
                forall|j: int| 0 <= j < i ==> show_ok(#[trigger] shows@[j], raws[j], show_start(raws[j])->Ok_0, now),
                artists@.map_values(|a: BilledArtist| billed_view(a)) == unique_billing(billing(raws.subrange(0, i as int))),
                forall|k: int| 0 <= k < artists@.len() ==> (#[trigger] artists@[k]).id_seed@ == artist_seed(artists@[k].name@)
                    && artists@[k].created_at == now && artists@[k].updated_at == now,
            decreases raws.len() - i,
        {
            let e = &raw_events[i];
            let start = match show_start_of(e) {
                Ok(u) => u,
                Err(m) => {
                    return Err(ScraperError::ParseError(m));
                },
            };
            let ghost before = billing(raws.subrange(0, i as int));
            let ghost ev = e.artists@.map_values(|a: RawArtist| raw_artist_view(a));
            let mut seeds: Vec<String> = Vec::new();
            let mut j: usize = 0;
            assert(ev.subrange(0, 0) =~= Seq::<(Seq<char>, Option<Seq<char>>)>::empty());
            assert(before + ev.subrange(0, 0) =~= before);
            while j < e.artists.len()
                invariant
                    e == &raw_events@[i as int],
                    ev == e.artists@.map_values(|a: RawArtist| raw_artist_view(a)),
                    j <= e.artists@.len(),
                    seeds@.map_values(|x: String| x@) == e.artists@.subrange(0, j as int).map_values(|a: RawArtist| artist_seed(a.name@)),
                    artists@.map_values(|a: BilledArtist| billed_view(a)) == unique_billing(before + ev.subrange(0, j as int)),
                    forall|k: int| 0 <= k < artists@.len() ==> (#[trigger] artists@[k]).id_seed@ == artist_seed(artists@[k].name@)
                        && artists@[k].created_at == now && artists@[k].updated_at == now,
                decreases e.artists@.len() - j,
            {
                let a = &e.artists[j];
                let seed = artist_seed_of(a.name.as_str());
                let ghost l = before + ev.subrange(0, j + 1);
                assert(l.drop_last() =~= before + ev.subrange(0, j as int));
                assert(l.last() == ev[j as int]);
                assert(ev[j as int] == raw_artist_view(e.artists@[j as int]));
                let ghost u0 = artists@.map_values(|x: BilledArtist| billed_view(x));
                if !seed_listed(&artists, &seed) {
                    artists.push(BilledArtist {
                        id_seed: seed.clone(),
                        name: a.name.clone(),
                        url: opt_clone(&a.url),
                        created_at: now,
                        updated_at: now,
                    });
                    assert(artists@.map_values(|x: BilledArtist| billed_view(x)) =~= u0.push(l.last()));
                }
                let ghost sv = seeds@.map_values(|x: String| x@);
                seeds.push(seed);
                assert(seeds@.map_values(|x: String| x@) =~= sv.push(artist_seed(a.name@)));
                assert(e.artists@.subrange(0, j + 1).map_values(|x: RawArtist| artist_seed(x.name@))
                    =~= e.artists@.subrange(0, j as int).map_values(|x: RawArtist| artist_seed(x.name@)).push(artist_seed(a.name@)));
                j = j + 1;
            }
            proof {
                assert(ev.subrange(0, ev.len() as int) =~= ev);
                assert(e.artists@.subrange(0, e.artists@.len() as int) =~= e.artists@);
                let nxt = raws.subrange(0, i + 1);
                assert(nxt.drop_last() =~= raws.subrange(0, i as int));
                assert(nxt.last() == raws[i as int]);
            }
            let show = Show {
                id_seed: {
                    let mut r = owned("conor-byrne-");
                    let t = seed_text_of(e.title.as_str());
                    r.append(t.as_str());
                    r.append("-");
                    let d = match date_text(e.date) {
                        Some(d) => d,
                        None => String::new(),
                    };
                    r.append(d.as_str());
                    r
                },
                venue_id_seed: owned("conor-byrne"),
                title: e.title.clone(),
                starts_at: start,
                artist_id_seeds: seeds,
                description: opt_clone(&e.description),
                ticket_link: opt_clone(&e.ticket_link),
                price_text: match &e.price {
                    Some(p) => Some(price_text_of(p.as_str())),
                    None => None,
                },
                age_restriction: opt_clone(&e.age_restriction),
                created_at: now,
                updated_at: now,
            };
            shows.push(show);
            i = i + 1;
        }
        assert(raws.subrange(0, raws.len() as int) =~= raws);
        let mut venues: Vec<ShowVenue> = Vec::new();
        venues.push(create_venue(now));
        Ok((shows, venues, artists))
    }

    /// [`Self::normalize_events_at`] at the current time.
    pub fn normalize_events(&self, raw_events: Vec<RawEvent>)
        -> (r: Result<(Vec<Show>, Vec<ShowVenue>, Vec<BilledArtist>), ScraperError>)
        ensures
            (r is Ok) == (forall|i: int| 0 <= i < raw_events@.len() ==> #[trigger] show_start(raw_events@[i]) is Ok),
            r matches Err(ScraperError::ParseError(m)) ==> exists|i: int| 0 <= i < raw_events@.len()
                && (forall|j: int| 0 <= j < i ==> #[trigger] show_start(raw_events@[j]) is Ok)
                && #[trigger] show_start(raw_events@[i]) == Err::<i64, Seq<char>>(m@),
            r matches Ok((shows, venues, artists)) ==> exists|now: i64| {
                &&& shows@.len() == raw_events@.len()
                &&& forall|i: int| 0 <= i < raw_events@.len() ==> show_ok(#[trigger] shows@[i], raw_events@[i],
                    show_start(raw_events@[i])->Ok_0, now)
                &&& venues@.len() == 1 && show_venue_ok(venues@[0], now)
                &&& artists@.map_values(|a: BilledArtist| billed_view(a)) == unique_billing(billing(raw_events@))
                &&& forall|k: int| 0 <= k < artists@.len() ==> (#[trigger] artists@[k]).id_seed@ == artist_seed(artists@[k].name@)
                    && artists@[k].created_at == now && artists@[k].updated_at == now
            },
    {
        let now = now_ms();
        self.normalize_events_at(raw_events, now)
    }
}

} // verus!
