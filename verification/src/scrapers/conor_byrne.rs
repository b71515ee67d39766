//! Conor Byrne Pub: the events of its VenuePilot GraphQL feed, read into
//! raw events.

use crate::calendar::{date_parse_of, parse_date};
use crate::domain::CalendarDate;
use crate::parser::reversed;
use crate::text::{
    contains_spec, contains_str, i64_text, opt_view, owned, replace_spec, replace_str, signed_decimal_spec, str_eq,
    trim_spec, trim_str,
};
use vstd::prelude::*;
use vstd::string::*;

verus! {

/// A GraphQL response of the feed.
#[derive(Debug)]
pub struct GraphQLResponse {
    pub data: GraphQLData,
}

/// The data of a response.
#[derive(Debug)]
pub struct GraphQLData {
    pub paginated_events: PaginatedEvents,
}

/// One page of events.
#[derive(Debug)]
pub struct PaginatedEvents {
    pub collection: Vec<ConorByrneEvent>,
    pub metadata: EventMetadata,
}

/// Paging information.
#[derive(Debug)]
pub struct EventMetadata {
    pub current_page: Option<i32>,
    pub limit_value: Option<i32>,
    pub total_count: Option<i32>,
    pub total_pages: Option<i32>,
}

/// One event of the feed.
#[derive(Debug)]
pub struct ConorByrneEvent {
    pub id: i64,
    pub name: String,
    pub date: String,
    pub door_time: Option<String>,
    pub start_time: Option<String>,
    pub end_time: Option<String>,
    pub minimum_age: Option<i32>,
    pub promoter: Option<String>,
    pub support: Option<String>,
    pub description: Option<String>,
    pub website_url: Option<String>,
    pub twitter_url: Option<String>,
    pub instagram_url: Option<String>,
    pub status: Option<String>,
    pub announce_artists: Option<Vec<AnnounceArtist>>,
    pub artists: Option<Vec<Artist>>,
    pub venue: Option<Venue>,
    pub footer_content: Option<String>,
    pub tickets_url: Option<String>,
}

/// An announced artist with its links.
#[derive(Debug)]
pub struct AnnounceArtist {
    pub name: String,
    pub applemusic: Option<String>,
    pub bandcamp: Option<String>,
    pub facebook: Option<String>,
    pub instagram: Option<String>,
    pub lastfm: Option<String>,
    pub songkick: Option<String>,
    pub spotify: Option<String>,
    pub twitter: Option<String>,
    pub website: Option<String>,
    pub wikipedia: Option<String>,
    pub youtube: Option<String>,
}

/// A billed artist.
#[derive(Debug)]
pub struct Artist {
    pub id: i64,
    pub name: String,
    pub bio: Option<String>,
    pub created_at: Option<String>,
    pub updated_at: Option<String>,
}

/// The venue of an event.
#[derive(Debug)]
pub struct Venue {
    pub name: String,
}

/// An artist as a scraper reads it.
#[derive(Debug)]
pub struct RawArtist {
    pub name: String,
    pub url: Option<String>,
}

/// An event as a scraper reads it.
#[derive(Debug)]
pub struct RawEvent {
    pub title: String,
    pub date: CalendarDate,
    pub time: Option<String>,
    pub artists: Vec<RawArtist>,
    pub venue_name: String,
    pub description: Option<String>,
    pub ticket_link: Option<String>,
    pub price: Option<String>,
    pub age_restriction: Option<String>,
    pub additional_info: Option<String>,
}

/// Why a scraper could not read its feed.
#[derive(Debug)]
pub enum ScraperError {
    ParseError(String),
}

/// The first of three optional values that is present.
pub open spec fn first_present(a: Option<Seq<char>>, b: Option<Seq<char>>, c: Option<Seq<char>>) -> Option<Seq<char>> {
    if a is Some { a } else if b is Some { b } else { c }
}

/// The artists of an event, as names and links: the billed artists, or
/// when there are none the announced ones with their website, Spotify or
/// Bandcamp link.
pub open spec fn event_artists(e: ConorByrneEvent) -> Seq<(Seq<char>, Option<Seq<char>>)> {
    let billed: Seq<(Seq<char>, Option<Seq<char>>)> = match e.artists {
        Some(l) => l@.map_values(|a: Artist| (a.name@, None::<Seq<char>>)),
        None => Seq::empty(),
    };
    if billed.len() > 0 {
        billed
    } else {
        match e.announce_artists {
            Some(l) => l@.map_values(|a: AnnounceArtist| (a.name@, first_present(opt_view(a.website), opt_view(a.spotify), opt_view(a.bandcamp)))),
            None => Seq::empty(),
        }
    }
}

/// An HTML description reduced to text: paragraph and line breaks become
/// newlines, `&nbsp;` and `&amp;` their characters, white space trimmed.
pub open spec fn clean_description(d: Seq<char>) -> Seq<char> {
    trim_spec(replace_spec(replace_spec(replace_spec(replace_spec(replace_spec(d, "<p>"@, ""@), "</p>"@, "\n"@), "<br>"@,
        "\n"@), "&nbsp;"@, " "@), "&amp;"@, "&"@))
}

/// `r` is the raw event read from `e`, whose date is `date`.
pub open spec fn raw_event_of(e: ConorByrneEvent, date: CalendarDate, r: RawEvent) -> bool {
    &&& r.title@ == e.name@
    &&& r.date == date
    &&& opt_view(r.time) == Some(e.date@ + " "@ + (match (e.door_time, e.start_time) {
        (Some(t), _) => t@,
        (None, Some(t)) => t@,
        (None, None) => "19:00:00"@,
    }))
    &&& r.artists@.map_values(|a: RawArtist| (a.name@, opt_view(a.url))) == event_artists(e)
    &&& r.venue_name@ == (match e.venue {
        Some(v) => v.name@,
        None => "Conor Byrne Pub"@,
    })
    &&& opt_view(r.description) == (match e.description {
        Some(d) => Some(clean_description(d@)),
        None => None,
    })
    &&& opt_view(r.ticket_link) == (match e.tickets_url {
        Some(u) => Some(u@),
        None => match e.status {
            Some(s) => if contains_spec(s@, "http"@) { Some(s@) } else { None },
            None => None,
        },
    })
    &&& opt_view(r.price) == (match e.status {
        Some(s) => if s@ != "Tickets"@ && s@ != "Free"@ { Some(s@) } else { None },
        None => None,
    })
    &&& opt_view(r.age_restriction) == (match e.minimum_age {
        Some(a) => Some(signed_decimal_spec(a as int) + "+"@),
        None => None,
    })
    &&& r.additional_info is None
}

/// The event at `i` is the first whose date does not parse, and `m` says so.
pub open spec fn first_bad_date(coll: Seq<ConorByrneEvent>, i: int, m: Seq<char>) -> bool {
    &&& 0 <= i < coll.len()
    &&& forall|j: int| 0 <= j < i ==> date_parse_of(#[trigger] coll[j].date@, feed_date_format()) is Ok
    &&& date_parse_of(coll[i].date@, feed_date_format()) is Err
    &&& m == "Failed to parse date: "@ + date_parse_of(coll[i].date@, feed_date_format())->Err_0
}

/// The error says which event was the first with a date that does not parse.
pub open spec fn parse_failed(coll: Seq<ConorByrneEvent>, e: ScraperError) -> bool {
    match e {
        ScraperError::ParseError(m) => exists|i: int| #[trigger] first_bad_date(coll, i, m@),
    }
}

/// The format of feed dates.
pub open spec fn feed_date_format() -> Seq<char> {
    "%Y-%m-%d"@
}

fn opt_clone_str(o: &Option<String>) -> (r: Option<String>)
    ensures
        opt_view(r) == opt_view(*o),
{
    match o {
        Some(s) => Some(s.clone()),
        None => None,
    }
}

/// The artists of an event.
fn read_artists(artists: Option<Vec<Artist>>, announce: Option<Vec<AnnounceArtist>>) -> (r: Vec<RawArtist>)
    ensures
        r@.map_values(|a: RawArtist| (a.name@, opt_view(a.url))) == ({
            let billed: Seq<(Seq<char>, Option<Seq<char>>)> = match artists {
                Some(l) => l@.map_values(|a: Artist| (a.name@, None::<Seq<char>>)),
                None => Seq::empty(),
            };
            if billed.len() > 0 {
                billed
            } else {
                match announce {
                    Some(l) => l@.map_values(|a: AnnounceArtist| (a.name@, first_present(opt_view(a.website), opt_view(a.spotify), opt_view(a.bandcamp)))),
                    None => Seq::empty(),
                }
            }
        }),
{
    let mut out: Vec<RawArtist> = Vec::new();
    if let Some(list) = &artists {
        let mut i: usize = 0;
        while i < list.len()
            invariant
                i <= list@.len(),
                out@.map_values(|a: RawArtist| (a.name@, opt_view(a.url))) == list@.subrange(0, i as int).map_values(|a: Artist| (a.name@, None::<Seq<char>>)),
            decreases list@.len() - i,
        {
            let ghost before = out@.map_values(|a: RawArtist| (a.name@, opt_view(a.url)));
            out.push(RawArtist { name: list[i].name.clone(), url: None });
            assert(out@.map_values(|a: RawArtist| (a.name@, opt_view(a.url))) =~= before.push((list@[i as int].name@, None::<Seq<char>>)));
            assert(list@.subrange(0, i + 1).map_values(|a: Artist| (a.name@, None::<Seq<char>>)) =~= list@.subrange(0, i as int).map_values(|a: Artist| (a.name@, None::<Seq<char>>)).push((list@[i as int].name@, None::<Seq<char>>)));
            i = i + 1;
        }
        assert(list@.subrange(0, list@.len() as int) =~= list@);
    }
    if out.len() == 0 {
        let ghost billed: Seq<(Seq<char>, Option<Seq<char>>)> = match artists {
            Some(l) => l@.map_values(|a: Artist| (a.name@, None::<Seq<char>>)),
            None => Seq::empty(),
        };
        assert(billed.len() == 0);
        if let Some(list) = &announce {
            let mut i: usize = 0;
            while i < list.len()
                invariant
                    i <= list@.len(),
                    out@.map_values(|a: RawArtist| (a.name@, opt_view(a.url))) == list@.subrange(0, i as int).map_values(|a: AnnounceArtist| (a.name@, first_present(opt_view(a.website), opt_view(a.spotify), opt_view(a.bandcamp)))),
                decreases list@.len() - i,
            {
                let a = &list[i];
                let url = if a.website.is_some() {
                    opt_clone_str(&a.website)
                } else if a.spotify.is_some() {
                    opt_clone_str(&a.spotify)
                } else {
                    opt_clone_str(&a.bandcamp)
                };
                let ghost item = (a.name@, first_present(opt_view(a.website), opt_view(a.spotify), opt_view(a.bandcamp)));
                let ghost before = out@.map_values(|a: RawArtist| (a.name@, opt_view(a.url)));
                out.push(RawArtist { name: a.name.clone(), url });
                assert(out@.map_values(|a: RawArtist| (a.name@, opt_view(a.url))) =~= before.push(item));
                assert(list@.subrange(0, i + 1).map_values(|a: AnnounceArtist| (a.name@, first_present(opt_view(a.website), opt_view(a.spotify), opt_view(a.bandcamp)))) =~= list@.subrange(0, i as int).map_values(|a: AnnounceArtist| (a.name@, first_present(opt_view(a.website), opt_view(a.spotify), opt_view(a.bandcamp)))).push(item));
                i = i + 1;
            }
            assert(list@.subrange(0, list@.len() as int) =~= list@);
        } else {
            assert(out@.map_values(|a: RawArtist| (a.name@, opt_view(a.url))) =~= Seq::<(Seq<char>, Option<Seq<char>>)>::empty());
        }
    }
    out
}

/// A description with its HTML reduced to text.
pub fn clean_description_text(d: &str) -> (r: String)
    ensures
        r@ == clean_description(d@),
{
    proof {
        reveal_strlit("<p>");
        reveal_strlit("</p>");
        reveal_strlit("<br>");
        reveal_strlit("&nbsp;");
        reveal_strlit("&amp;");
    }
    let a = replace_str(d, "<p>", "");
    let b = replace_str(a.as_str(), "</p>", "\n");
    let c = replace_str(b.as_str(), "<br>", "\n");
    let e = replace_str(c.as_str(), "&nbsp;", " ");
    let f = replace_str(e.as_str(), "&amp;", "&");
    trim_str(f.as_str())
}

/// The raw event of a feed event whose date is `date`.
fn read_event(e: ConorByrneEvent, date: CalendarDate) -> (r: RawEvent)
    ensures
        raw_event_of(e, date, r),
{
    let ghost e0 = e;
    let mut time = e.date.clone();
    time.append(" ");
    match (&e.door_time, &e.start_time) {
        (Some(t), _) => time.append(t.as_str()),
        (None, Some(t)) => time.append(t.as_str()),
        (None, None) => time.append("19:00:00"),
    }
    let artists = read_artists(e.artists, e.announce_artists);
    let venue_name = match e.venue {
        Some(v) => v.name,
        None => owned("Conor Byrne Pub"),
    };
    let description = match &e.description {
        Some(d) => Some(clean_description_text(d.as_str())),
        None => None,
    };
    let ticket_link = match e.tickets_url {
        Some(u) => Some(u),
        None => match &e.status {
            Some(s) => if contains_str(s.as_str(), "http") {
                Some(s.clone())
            } else {
                None
            },
            None => None,
        },
    };
    let price = match e.status {
        Some(s) => if !str_eq(s.as_str(), "Tickets") && !str_eq(s.as_str(), "Free") {
            Some(s)
        } else {
            None
        },
        None => None,
    };
    let age_restriction = match e.minimum_age {
        Some(a) => {
            let mut t = i64_text(a as i64);
            t.append("+");
            Some(t)
        },
        None => None,
    };
    RawEvent {
        title: e.name,
        date,
        time: Some(time),
        artists,
        venue_name,
        description,
        ticket_link,
        price,
        age_restriction,
        additional_info: None,
    }
}

/// Reads the Conor Byrne feed.
pub struct ConorByrneParser;

impl ConorByrneParser {
    /// The parser.
    pub fn new() -> (r: Self) {
        ConorByrneParser
    }

    /// The raw events of a response, in order; the first event whose date is
    /// not `YYYY-MM-DD` fails the whole response with
    /// `Failed to parse date: ` and chrono's error.
    pub fn parse_events(&self, response: GraphQLResponse) -> (r: Result<Vec<RawEvent>, ScraperError>)
        ensures
            ({
                let coll = response.data.paginated_events.collection@;
                match r {
                    Ok(v) => v@.len() == coll.len() && forall|i: int| 0 <= i < coll.len() ==> (date_parse_of(
                        #[trigger] coll[i].date@,
                        feed_date_format(),
                    ) is Ok && raw_event_of(coll[i], date_parse_of(coll[i].date@, feed_date_format())->Ok_0, v@[i])),
                    Err(e) => parse_failed(coll, e),
                }
            }),
    {
        proof {
            reveal_strlit("%Y-%m-%d");
        }
        let ghost coll = response.data.paginated_events.collection@;
        let n = response.data.paginated_events.collection.len();
        let mut rev = reversed(response.data.paginated_events.collection);
        let mut out: Vec<RawEvent> = Vec::new();
        let mut k: usize = 0;
        while rev.len() > 0
            invariant
                k + rev@.len() == n,
                n == coll.len(),
                coll == response.data.paginated_events.collection@,
                rev@ == coll.subrange(k as int, n as int).reverse(),
                out@.len() == k,
                forall|i: int| 0 <= i < k ==> (date_parse_of(#[trigger] coll[i].date@, feed_date_format()) is Ok
                    && raw_event_of(coll[i], date_parse_of(coll[i].date@, feed_date_format())->Ok_0, out@[i])),
            decreases rev@.len(),
        {
            let e = rev.pop().unwrap();
            assert(e == coll[k as int]);
            assert(rev@ =~= coll.subrange(k + 1, n as int).reverse());
            match parse_date(e.date.as_str(), "%Y-%m-%d") {
                Ok(date) => {
                    let ev = read_event(e, date);
                    out.push(ev);
                    k = k + 1;
                },
                Err(err) => {
                    let mut m = owned("Failed to parse date: ");
                    m.append(err.as_str());
                    proof {
                        assert(forall|j: int| 0 <= j < k ==> date_parse_of(#[trigger] coll[j].date@, feed_date_format()) is Ok);
                        assert(date_parse_of(coll[k as int].date@, feed_date_format()) == Err::<CalendarDate, Seq<char>>(err@));
                        assert(m@ == "Failed to parse date: "@ + date_parse_of(coll[k as int].date@, feed_date_format())->Err_0);
                        assert(first_bad_date(coll, k as int, m@));
                    }
                    let ghost mv = m@;
                    assert(first_bad_date(coll, k as int, mv));
                    let fail = ScraperError::ParseError(m);
                    proof {
                        let ScraperError::ParseError(x) = fail;
                        assert(x@ == mv);
                        assert(first_bad_date(coll, k as int, x@));
                    }
                    assert(parse_failed(coll, fail));
                    return Err(fail);
                },
            }
        }
        Ok(out)
    }
}

} // verus!
