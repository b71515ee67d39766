//! VenuePilot GraphQL responses: the events of `data.paginatedEvents.collection`.

use crate::calendar::{date_parse_of, parse_date, reformat_time, time_reformat_of};
use crate::json::{find_key, json_get, json_of_text, json_str, json_text, lemma_find_key, parse_json, write_json, Json};
use crate::parser::{holds_value, object_is, push_text, same_origin, FieldValue, ParsedRecord, VenuePilotGraphQLV1Parser};
use crate::text::{opt_view, owned, utf8_lossy, utf8_lossy_of};
use vstd::prelude::*;
use vstd::string::*;

verus! {

/// Why a response could not be read.
#[derive(Debug)]
pub enum VenuePilotError {
    /// The response has no `data.paginatedEvents.collection` array.
    InvalidStructure,
    /// The payload is not JSON: the parser's message.
    InvalidJson(String),
}

/// The message of a response error.
pub open spec fn venuepilot_error_text(e: VenuePilotError) -> Seq<char> {
    match e {
        VenuePilotError::InvalidStructure => "Invalid GraphQL response structure"@,
        VenuePilotError::InvalidJson(m) => m@,
    }
}

impl VenuePilotError {
    /// The error's message.
    pub fn message(&self) -> (r: String)
        ensures
            r@ == venuepilot_error_text(*self),
    {
        match self {
            VenuePilotError::InvalidStructure => owned("Invalid GraphQL response structure"),
            VenuePilotError::InvalidJson(m) => m.clone(),
        }
    }
}

/// An artist entry of a record.
pub enum ArtistEntry {
    /// A billed artist: name and bio (`null` when absent).
    Billed { name: Seq<char>, bio: Option<Seq<char>> },
    /// An announced artist: name and social links.
    Announced { name: Seq<char>, links: Seq<(Seq<char>, FieldValue)> },
}

/// A field value of a record.
pub enum VpValue {
    Text(Seq<char>),
    Artists(Seq<ArtistEntry>),
    /// An object holding the venue's name.
    Venue(Seq<char>),
}

/// Whether `v` holds the artist entry `a`.
pub open spec fn artist_holds(v: Json, a: ArtistEntry) -> bool {
    match a {
        ArtistEntry::Billed { name, bio } => match v {
            Json::Object(es) => es@.len() == 2 && es@[0].0@ == "name"@ && holds_value(es@[0].1, FieldValue::Text(name))
                && es@[1].0@ == "bio"@ && (match bio {
                    Some(b) => holds_value(es@[1].1, FieldValue::Text(b)),
                    None => es@[1].1 == Json::Null,
                }),
            _ => false,
        },
        ArtistEntry::Announced { name, links } => match v {
            Json::Object(es) => es@.len() == 2 && es@[0].0@ == "name"@ && holds_value(es@[0].1, FieldValue::Text(name))
                && es@[1].0@ == "social_links"@ && object_is(es@[1].1, links),
            _ => false,
        },
    }
}

/// Whether `v` holds the record value `x`.
pub open spec fn vp_holds(v: Json, x: VpValue) -> bool {
    match x {
        VpValue::Text(t) => holds_value(v, FieldValue::Text(t)),
        VpValue::Venue(n) => object_is(v, seq![("name"@, FieldValue::Text(n))]),
        VpValue::Artists(list) => match v {
            Json::Array(items) => items@.len() == list.len() && forall|i: int| 0 <= i < list.len() ==> artist_holds(#[trigger] items@[i], list[i]),
            _ => false,
        },
    }
}

/// `j` is an object with exactly these fields, in this order.
pub open spec fn vp_object_is(j: Json, fields: Seq<(Seq<char>, VpValue)>) -> bool {
    match j {
        Json::Object(es) => es@.len() == fields.len() && forall|i: int| 0 <= i < fields.len() ==> (#[trigger] es@[i]).0@ == fields[i].0
            && vp_holds(es@[i].1, fields[i].1),
        _ => false,
    }
}

/// The text under `k` of an object.
pub open spec fn str_field(e: Json, k: Seq<char>) -> Option<Seq<char>> {
    json_str(json_get(e, k))
}

/// An optional text field.
pub open spec fn text_field(key: Seq<char>, v: Option<Seq<char>>) -> Seq<(Seq<char>, VpValue)> {
    match v {
        Some(t) => seq![(key, VpValue::Text(t))],
        None => Seq::empty(),
    }
}

/// The time format of the feed.
pub open spec fn hms() -> Seq<char> {
    "%H:%M:%S"@
}

/// The start time of an event: its `startTime`, else its `doorTime`, as
/// chrono reads and writes `%H:%M:%S`.
pub open spec fn start_time_of(e: Json) -> Option<Seq<char>> {
    let st = match str_field(e, "startTime"@) {
        Some(t) => time_reformat_of(t, hms(), hms()),
        None => None,
    };
    if st is Some {
        st
    } else {
        match str_field(e, "doorTime"@) {
            Some(t) => time_reformat_of(t, hms(), hms()),
            None => None,
        }
    }
}

/// The social links of an announced artist, in a fixed order.
pub open spec fn social_links(a: Json) -> Seq<(Seq<char>, FieldValue)> {
    let one = |k: Seq<char>| match str_field(a, k) {
        Some(u) => seq![(k, FieldValue::Text(u))],
        None => Seq::<(Seq<char>, FieldValue)>::empty(),
    };
    one("website"@) + one("facebook"@) + one("twitter"@) + one("instagram"@) + one("spotify"@) + one("bandcamp"@)
}

/// The billed artists that have a name.
pub open spec fn billed_artists(list: Seq<Json>) -> Seq<ArtistEntry>
    decreases list.len(),
{
    if list.len() == 0 {
        Seq::empty()
    } else {
        let prev = billed_artists(list.drop_last());
        match str_field(list.last(), "name"@) {
            Some(n) => prev.push(ArtistEntry::Billed { name: n, bio: str_field(list.last(), "bio"@) }),
            None => prev,
        }
    }
}

/// The announced artists that have a name.
pub open spec fn announced_artists(list: Seq<Json>) -> Seq<ArtistEntry>
    decreases list.len(),
{
    if list.len() == 0 {
        Seq::empty()
    } else {
        let prev = announced_artists(list.drop_last());
        match str_field(list.last(), "name"@) {
            Some(n) => prev.push(ArtistEntry::Announced { name: n, links: social_links(list.last()) }),
            None => prev,
        }
    }
}

/// The items of an array under `k`, none otherwise.
pub open spec fn array_field(e: Json, k: Seq<char>) -> Seq<Json> {
    match json_get(e, k) {
        Some(Json::Array(items)) => items@,
        _ => Seq::empty(),
    }
}

/// The day of an event and, when that day is a date, its start time.
pub open spec fn date_part(e: Json) -> Seq<(Seq<char>, VpValue)> {
    match str_field(e, "date"@) {
        Some(d) => seq![("event_day"@, VpValue::Text(d))] + if date_parse_of(d, "%Y-%m-%d"@) is Ok {
            text_field("start_time"@, start_time_of(e))
        } else {
            Seq::empty()
        },
        None => Seq::empty(),
    }
}

/// The age restriction: the minimum age as written, then `+`.
pub open spec fn age_part(e: Json) -> Seq<(Seq<char>, VpValue)> {
    match json_get(e, "minimumAge"@) {
        Some(a) => seq![("age_restriction"@, VpValue::Text(json_text(a) + "+"@))],
        None => Seq::empty(),
    }
}

/// The supporting acts, when not empty.
pub open spec fn support_part(e: Json) -> Seq<(Seq<char>, VpValue)> {
    match str_field(e, "support"@) {
        Some(s) => if s.len() > 0 { seq![("supporting_acts"@, VpValue::Text(s))] } else { Seq::empty() },
        None => Seq::empty(),
    }
}

/// The billed artists, then the announced ones.
pub open spec fn all_artists(e: Json) -> Seq<ArtistEntry> {
    billed_artists(array_field(e, "artists"@)) + announced_artists(array_field(e, "announceArtists"@))
}

/// The artists, when there are any.
pub open spec fn artist_part(e: Json) -> Seq<(Seq<char>, VpValue)> {
    if all_artists(e).len() > 0 { seq![("artists"@, VpValue::Artists(all_artists(e)))] } else { Seq::empty() }
}

/// The venue's name, `Conor Byrne Pub` when the event names none.
pub open spec fn venue_name_of(e: Json) -> Seq<char> {
    match json_get(e, "venue"@) {
        Some(v) => match str_field(v, "name"@) {
            Some(n) => n,
            None => "Conor Byrne Pub"@,
        },
        None => "Conor Byrne Pub"@,
    }
}

/// The fields of the record of one event.
pub open spec fn vp_fields(e: Json, source_id: Seq<char>, scraped_at: Seq<char>) -> Seq<(Seq<char>, VpValue)> {
    text_field("title"@, str_field(e, "name"@)) + date_part(e) + age_part(e) + text_field("promoter"@, str_field(e, "promoter"@))
        + support_part(e) + text_field("description"@, str_field(e, "description"@))
        + text_field("ticket_url"@, str_field(e, "ticketsUrl"@)) + text_field("ticket_status"@, str_field(e, "status"@))
        + artist_part(e) + seq![("venue"@, VpValue::Venue(venue_name_of(e)))]
        + seq![("source_id"@, VpValue::Text(source_id)), ("scraped_at"@, VpValue::Text(scraped_at))]
}

/// Each record holds the fields of its event, stamped with `scraped_at`.
pub open spec fn stamped_with(out: Seq<ParsedRecord>, items: Seq<Json>, source_id: Seq<char>, scraped_at: Seq<char>) -> bool {
    out.len() == items.len() && forall|i: int| 0 <= i < items.len() ==> vp_object_is(#[trigger] out[i].record,
        vp_fields(items[i], source_id, scraped_at))
}

/// The events of a response, if it has the collection.
pub open spec fn vp_collection(doc: Json) -> Option<Seq<Json>> {
    match json_get(doc, "data"@) {
        Some(d) => match json_get(d, "paginatedEvents"@) {
            Some(p) => match json_get(p, "collection"@) {
                Some(Json::Array(items)) => Some(items@),
                _ => None,
            },
            None => None,
        },
        None => None,
    }
}

/// The text under `k` of an object.
pub fn str_field_of(e: &Json, k: &str) -> (r: Option<String>)
    ensures
        opt_view(r) == str_field(*e, k@),
{
    match e.get(k) {
        Some(Json::Str(s)) => Some(s.clone()),
        _ => None,
    }
}

fn vp_push(entries: &mut Vec<(String, Json)>, key: &str, value: Json, Ghost(fields): Ghost<Seq<(Seq<char>, VpValue)>>, Ghost(x): Ghost<VpValue>)
    requires
        vp_object_is(Json::Object(*old(entries)), fields),
        vp_holds(value, x),
    ensures
        vp_object_is(Json::Object(*final(entries)), fields.push((key@, x))),
{
    entries.push((owned(key), value));
    proof {
        let nf = fields.push((key@, x));
        assert forall|i: int| 0 <= i < nf.len() implies (#[trigger] entries@[i]).0@ == nf[i].0 && vp_holds(entries@[i].1, nf[i].1) by {
            if i < fields.len() {
                assert(entries@[i] == old(entries)@[i]);
            }
        }
    }
}

fn vp_push_opt(entries: &mut Vec<(String, Json)>, key: &str, value: Option<String>, Ghost(fields): Ghost<Seq<(Seq<char>, VpValue)>>)
    requires
        vp_object_is(Json::Object(*old(entries)), fields),
    ensures
        vp_object_is(Json::Object(*final(entries)), fields + text_field(key@, opt_view(value))),
{
    match value {
        Some(t) => {
            let ghost tv = t@;
            vp_push(entries, key, Json::Str(t), Ghost(fields), Ghost(VpValue::Text(tv)));
            assert(fields.push((key@, VpValue::Text(tv))) =~= fields + text_field(key@, opt_view(value)));
        },
        None => {
            assert(fields + text_field(key@, opt_view(value)) =~= fields);
        },
    }
}

/// The start time of an event.
fn start_time(e: &Json) -> (r: Option<String>)
    ensures
        opt_view(r) == start_time_of(*e),
{
    proof {
        reveal_strlit("%H:%M:%S");
    }
    let st = match str_field_of(e, "startTime") {
        Some(t) => reformat_time(t.as_str(), "%H:%M:%S", "%H:%M:%S"),
        None => None,
    };
    if st.is_some() {
        st
    } else {
        match str_field_of(e, "doorTime") {
            Some(t) => reformat_time(t.as_str(), "%H:%M:%S", "%H:%M:%S"),
            None => None,
        }
    }
}

fn link_push(entries: &mut Vec<(String, Json)>, a: &Json, key: &str, Ghost(fields): Ghost<Seq<(Seq<char>, FieldValue)>>)
    requires
        object_is(Json::Object(*old(entries)), fields),
    ensures
        object_is(Json::Object(*final(entries)), fields + match str_field(*a, key@) {
            Some(u) => seq![(key@, FieldValue::Text(u))],
            None => Seq::<(Seq<char>, FieldValue)>::empty(),
        }),
{
    match str_field_of(a, key) {
        Some(u) => {
            let ghost uv = u@;
            push_text(entries, key, u, Ghost(fields));
            assert(fields.push((key@, FieldValue::Text(uv))) =~= fields + seq![(key@, FieldValue::Text(uv))]);
        },
        None => {
            assert(fields + Seq::<(Seq<char>, FieldValue)>::empty() =~= fields);
        },
    }
}

/// The social links of an announced artist.
fn social_links_json(a: &Json) -> (r: Json)
    ensures
        object_is(r, social_links(*a)),
{
    let mut es: Vec<(String, Json)> = Vec::new();
    let ghost one = |k: Seq<char>| match str_field(*a, k) {
        Some(u) => seq![(k, FieldValue::Text(u))],
        None => Seq::<(Seq<char>, FieldValue)>::empty(),
    };
    let ghost f0: Seq<(Seq<char>, FieldValue)> = Seq::empty();
    assert(object_is(Json::Object(es), f0));
    link_push(&mut es, a, "website", Ghost(f0));
    let ghost f1 = f0 + one("website"@);
    link_push(&mut es, a, "facebook", Ghost(f1));
    let ghost f2 = f1 + one("facebook"@);
    link_push(&mut es, a, "twitter", Ghost(f2));
    let ghost f3 = f2 + one("twitter"@);
    link_push(&mut es, a, "instagram", Ghost(f3));
    let ghost f4 = f3 + one("instagram"@);
    link_push(&mut es, a, "spotify", Ghost(f4));
    let ghost f5 = f4 + one("spotify"@);
    link_push(&mut es, a, "bandcamp", Ghost(f5));
    assert(f5 + one("bandcamp"@) =~= social_links(*a));
    Json::Object(es)
}

/// The artist entries of an event.
fn artists_json(e: &Json) -> (r: Vec<Json>)
    ensures
        r@.len() == all_artists(*e).len(),
        forall|i: int| 0 <= i < r@.len() ==> artist_holds(#[trigger] r@[i], all_artists(*e)[i]),
{
    let mut out: Vec<Json> = Vec::new();
    let empty: Vec<Json> = Vec::new();
    let billed = match e.get("artists") {
        Some(Json::Array(l)) => l,
        _ => &empty,
    };
    assert(billed@ == array_field(*e, "artists"@));
    let mut i: usize = 0;
    while i < billed.len()
        invariant
            i <= billed@.len(),
            out@.len() == billed_artists(billed@.subrange(0, i as int)).len(),
            forall|k: int| 0 <= k < out@.len() ==> artist_holds(#[trigger] out@[k], billed_artists(billed@.subrange(0, i as int))[k]),
        decreases billed@.len() - i,
    {
        let ghost pre = billed@.subrange(0, i + 1);
        assert(pre.drop_last() =~= billed@.subrange(0, i as int));
        let a = &billed[i];
        match str_field_of(a, "name") {
            Some(n) => {
                let bio = match str_field_of(a, "bio") {
                    Some(b) => Json::Str(b),
                    None => Json::Null,
                };
                let mut es: Vec<(String, Json)> = Vec::new();
                es.push((owned("name"), Json::Str(n)));
                es.push((owned("bio"), bio));
                proof {
                    reveal_strlit("name");
                    reveal_strlit("bio");
                }
                let ghost before = out@;
                out.push(Json::Object(es));
                assert forall|k: int| 0 <= k < out@.len() implies artist_holds(#[trigger] out@[k], billed_artists(pre)[k]) by {
                    if k < before.len() {
                        assert(out@[k] == before[k]);
                    }
                }
            },
            None => {},
        }
        i = i + 1;
    }
    assert(billed@.subrange(0, billed@.len() as int) =~= billed@);
    let ghost nb = out@.len();
    let ghost bl = billed_artists(billed@);
    let announced = match e.get("announceArtists") {
        Some(Json::Array(l)) => l,
        _ => &empty,
    };
    assert(announced@ == array_field(*e, "announceArtists"@));
    let mut j: usize = 0;
    while j < announced.len()
        invariant
            j <= announced@.len(),
            nb == bl.len(),
            out@.len() == nb + announced_artists(announced@.subrange(0, j as int)).len(),
            forall|k: int| 0 <= k < out@.len() ==> artist_holds(#[trigger] out@[k], (bl + announced_artists(announced@.subrange(0, j as int)))[k]),
        decreases announced@.len() - j,
    {
        let ghost pre = announced@.subrange(0, j + 1);
        assert(pre.drop_last() =~= announced@.subrange(0, j as int));
        let a = &announced[j];
        match str_field_of(a, "name") {
            Some(n) => {
                let links = social_links_json(a);
                let mut es: Vec<(String, Json)> = Vec::new();
                es.push((owned("name"), Json::Str(n)));
                es.push((owned("social_links"), links));
                proof {
                    reveal_strlit("name");
                    reveal_strlit("social_links");
                }
                let ghost before = out@;
                out.push(Json::Object(es));
                assert((bl + announced_artists(pre)) =~= (bl + announced_artists(announced@.subrange(0, j as int))).push(
                    ArtistEntry::Announced { name: str_field(*a, "name"@)->0, links: social_links(*a) },
                ));
                assert forall|k: int| 0 <= k < out@.len() implies artist_holds(#[trigger] out@[k], (bl + announced_artists(pre))[k]) by {
                    if k < before.len() {
                        assert(out@[k] == before[k]);
                    }
                }
            },
            None => {
                assert((bl + announced_artists(pre)) =~= bl + announced_artists(announced@.subrange(0, j as int)));
            },
        }
        j = j + 1;
    }
    assert(announced@.subrange(0, announced@.len() as int) =~= announced@);
    out
}

fn push_date(es: &mut Vec<(String, Json)>, e: &Json, Ghost(fields): Ghost<Seq<(Seq<char>, VpValue)>>)
    requires
        vp_object_is(Json::Object(*old(es)), fields),
    ensures
        vp_object_is(Json::Object(*final(es)), fields + date_part(*e)),
{
    proof {
        reveal_strlit("%Y-%m-%d");
    }
    match str_field_of(e, "date") {
        Some(d) => {
            let ok = parse_date(d.as_str(), "%Y-%m-%d").is_ok();
            let ghost dv = d@;
            vp_push(es, "event_day", Json::Str(d), Ghost(fields), Ghost(VpValue::Text(dv)));
            let ghost g = fields.push(("event_day"@, VpValue::Text(dv)));
            if ok {
                vp_push_opt(es, "start_time", start_time(e), Ghost(g));
                assert(g + text_field("start_time"@, start_time_of(*e)) =~= fields + date_part(*e));
            } else {
                assert(g =~= fields + date_part(*e));
            }
        },
        None => {
            assert(fields + date_part(*e) =~= fields);
        },
    }
}

fn push_age(es: &mut Vec<(String, Json)>, e: &Json, Ghost(fields): Ghost<Seq<(Seq<char>, VpValue)>>)
    requires
        vp_object_is(Json::Object(*old(es)), fields),
    ensures
        vp_object_is(Json::Object(*final(es)), fields + age_part(*e)),
{
    match e.get("minimumAge") {
        Some(a) => {
            let mut t = String::new();
            write_json(a, &mut t);
            t.append("+");
            let ghost tv = t@;
            vp_push(es, "age_restriction", Json::Str(t), Ghost(fields), Ghost(VpValue::Text(tv)));
            assert(fields.push(("age_restriction"@, VpValue::Text(tv))) =~= fields + age_part(*e));
        },
        None => {
            assert(fields + age_part(*e) =~= fields);
        },
    }
}

fn push_support(es: &mut Vec<(String, Json)>, e: &Json, Ghost(fields): Ghost<Seq<(Seq<char>, VpValue)>>)
    requires
        vp_object_is(Json::Object(*old(es)), fields),
    ensures
        vp_object_is(Json::Object(*final(es)), fields + support_part(*e)),
{
    match str_field_of(e, "support") {
        Some(sup) => {
            if sup.unicode_len() > 0 {
                let ghost sv = sup@;
                vp_push(es, "supporting_acts", Json::Str(sup), Ghost(fields), Ghost(VpValue::Text(sv)));
                assert(fields.push(("supporting_acts"@, VpValue::Text(sv))) =~= fields + support_part(*e));
            } else {
                assert(fields + support_part(*e) =~= fields);
            }
        },
        None => {
            assert(fields + support_part(*e) =~= fields);
        },
    }
}

fn push_artists(es: &mut Vec<(String, Json)>, e: &Json, Ghost(fields): Ghost<Seq<(Seq<char>, VpValue)>>)
    requires
        vp_object_is(Json::Object(*old(es)), fields),
    ensures
        vp_object_is(Json::Object(*final(es)), fields + artist_part(*e)),
{
    let artists = artists_json(e);
    let ghost al = all_artists(*e);
    if artists.len() > 0 {
        vp_push(es, "artists", Json::Array(artists), Ghost(fields), Ghost(VpValue::Artists(al)));
        assert(fields.push(("artists"@, VpValue::Artists(al))) =~= fields + artist_part(*e));
    } else {
        assert(fields + artist_part(*e) =~= fields);
    }
}

fn push_venue(es: &mut Vec<(String, Json)>, e: &Json, Ghost(fields): Ghost<Seq<(Seq<char>, VpValue)>>)
    requires
        vp_object_is(Json::Object(*old(es)), fields),
    ensures
        vp_object_is(Json::Object(*final(es)), fields.push(("venue"@, VpValue::Venue(venue_name_of(*e))))),
{
    let venue_name = match e.get("venue") {
        Some(v) => match str_field_of(v, "name") {
            Some(n) => n,
            None => owned("Conor Byrne Pub"),
        },
        None => owned("Conor Byrne Pub"),
    };
    let ghost vn = venue_name@;
    let mut ves: Vec<(String, Json)> = Vec::new();
    ves.push((owned("name"), Json::Str(venue_name)));
    proof {
        reveal_strlit("name");
        let vf = seq![("name"@, FieldValue::Text(vn))];
        assert(ves@[0].0@ == vf[0].0);
    }
    vp_push(es, "venue", Json::Object(ves), Ghost(fields), Ghost(VpValue::Venue(vn)));
}

/// The record of one event.
fn event_record(e: &Json, source_id: &String, scraped_at: &String) -> (r: Json)
    ensures
        vp_object_is(r, vp_fields(*e, source_id@, scraped_at@)),
{
    let mut es: Vec<(String, Json)> = Vec::new();
    let ghost f0: Seq<(Seq<char>, VpValue)> = Seq::empty();
    assert(vp_object_is(Json::Object(es), f0));
    vp_push_opt(&mut es, "title", str_field_of(e, "name"), Ghost(f0));
    let ghost f1 = f0 + text_field("title"@, str_field(*e, "name"@));
    push_date(&mut es, e, Ghost(f1));
    let ghost f2 = f1 + date_part(*e);
    push_age(&mut es, e, Ghost(f2));
    let ghost f3 = f2 + age_part(*e);
    vp_push_opt(&mut es, "promoter", str_field_of(e, "promoter"), Ghost(f3));
    let ghost f4 = f3 + text_field("promoter"@, str_field(*e, "promoter"@));
    push_support(&mut es, e, Ghost(f4));
    let ghost f5 = f4 + support_part(*e);
    vp_push_opt(&mut es, "description", str_field_of(e, "description"), Ghost(f5));
    let ghost f6 = f5 + text_field("description"@, str_field(*e, "description"@));
    vp_push_opt(&mut es, "ticket_url", str_field_of(e, "ticketsUrl"), Ghost(f6));
    let ghost f7 = f6 + text_field("ticket_url"@, str_field(*e, "ticketsUrl"@));
    vp_push_opt(&mut es, "ticket_status", str_field_of(e, "status"), Ghost(f7));
    let ghost f8 = f7 + text_field("ticket_status"@, str_field(*e, "status"@));
    push_artists(&mut es, e, Ghost(f8));
    let ghost f9 = f8 + artist_part(*e);
    push_venue(&mut es, e, Ghost(f9));
    let ghost f10 = f9.push(("venue"@, VpValue::Venue(venue_name_of(*e))));
    vp_push(&mut es, "source_id", Json::Str(source_id.clone()), Ghost(f10), Ghost(VpValue::Text(source_id@)));
    let ghost f11 = f10.push(("source_id"@, VpValue::Text(source_id@)));
    vp_push(&mut es, "scraped_at", Json::Str(scraped_at.clone()), Ghost(f11), Ghost(VpValue::Text(scraped_at@)));
    proof {
        assert(f11.push(("scraped_at"@, VpValue::Text(scraped_at@))) =~= vp_fields(*e, source_id@, scraped_at@));
    }
    Json::Object(es)
}

impl VenuePilotGraphQLV1Parser {
    /// The records of a payload: its bytes read as UTF-8 (invalid sequences
    /// replaced) and then as JSON, an error with the JSON parser's message
    /// when they are not JSON; else those of the document, stamped with the
    /// current local time.
    pub fn parse(&self, bytes: &[u8]) -> (r: Result<Vec<ParsedRecord>, VenuePilotError>)
        ensures
            json_of_text(utf8_lossy_of(bytes@)) matches Err(m) ==> (r matches Err(VenuePilotError::InvalidJson(e)) && e@ == m),
            json_of_text(utf8_lossy_of(bytes@)) matches Ok(doc) ==> (r is Ok) == (vp_collection(doc) is Some),
            json_of_text(utf8_lossy_of(bytes@)) matches Ok(doc) ==> (r is Err ==> r matches Err(VenuePilotError::InvalidStructure)),
            json_of_text(utf8_lossy_of(bytes@)) matches Ok(doc) ==> (r matches Ok(out) ==> out@.len() == vp_collection(doc)->0.len()
                && forall|i: int| 0 <= i < out@.len() ==> {
                    &&& same_origin(#[trigger] out@[i], self.source_id@, self.envelope_id@, self.payload_ref@)
                    &&& out@[i].record_path@ == "data.paginatedEvents.collection"@
                }),
            json_of_text(utf8_lossy_of(bytes@)) matches Ok(doc) ==> (r matches Ok(out)
                ==> exists|s: Seq<char>| #[trigger] stamped_with(out@, vp_collection(doc)->0, self.source_id@, s)),
    {
        let text = utf8_lossy(bytes);
        match parse_json(text.as_str()) {
            Err(m) => Err(VenuePilotError::InvalidJson(m)),
            Ok(doc) => self.parse_document(&doc),
        }
    }

    /// The records of a response document stamped with the current local
    /// time as `scraped_at`; an error when the response has no collection.
    pub fn parse_document(&self, doc: &Json) -> (r: Result<Vec<ParsedRecord>, VenuePilotError>)
        ensures
            (r is Ok) == (vp_collection(*doc) is Some),
            r is Err ==> r matches Err(VenuePilotError::InvalidStructure),
            r matches Ok(out) ==> out@.len() == vp_collection(*doc)->0.len() && forall|i: int| 0 <= i < out@.len() ==> {
                &&& same_origin(#[trigger] out@[i], self.source_id@, self.envelope_id@, self.payload_ref@)
                &&& out@[i].record_path@ == "data.paginatedEvents.collection"@
            },
            r matches Ok(out) ==> exists|s: Seq<char>| #[trigger] stamped_with(out@, vp_collection(*doc)->0, self.source_id@, s),
    {
        let scraped_at = crate::calendar::local_now_rfc3339();
        let ghost s = scraped_at@;
        let r = self.parse_response(doc, scraped_at);
        proof {
            if r is Ok {
                assert(stamped_with(r->Ok_0@, vp_collection(*doc)->0, self.source_id@, s));
            }
        }
        r
    }

    /// The records of a response, one per event of
    /// `data.paginatedEvents.collection` (path
    /// `data.paginatedEvents.collection`), stamped with the source and
    /// `scraped_at`; an error when the response has no such array.
    pub fn parse_response(&self, doc: &Json, scraped_at: String) -> (r: Result<Vec<ParsedRecord>, VenuePilotError>)
        ensures
            match vp_collection(*doc) {
                Some(items) => r matches Ok(out) && out@.len() == items.len() && forall|i: int| 0 <= i < items.len() ==> {
                    &&& same_origin(#[trigger] out@[i], self.source_id@, self.envelope_id@, self.payload_ref@)
                    &&& out@[i].record_path@ == "data.paginatedEvents.collection"@
                    &&& vp_object_is(out@[i].record, vp_fields(items[i], self.source_id@, scraped_at@))
                },
                None => r matches Err(VenuePilotError::InvalidStructure),
            },
    {
        let items = match doc.get("data") {
            Some(d) => match d.get("paginatedEvents") {
                Some(p) => match p.get("collection") {
                    Some(Json::Array(items)) => items,
                    _ => return Err(VenuePilotError::InvalidStructure),
                },
                None => return Err(VenuePilotError::InvalidStructure),
            },
            None => return Err(VenuePilotError::InvalidStructure),
        };
        let mut out: Vec<ParsedRecord> = Vec::new();
        let mut i: usize = 0;
        while i < items.len()
            invariant
                i <= items@.len(),
                vp_collection(*doc) == Some(items@),
                out@.len() == i,
                forall|k: int| 0 <= k < i ==> {
                    &&& same_origin(#[trigger] out@[k], self.source_id@, self.envelope_id@, self.payload_ref@)
                    &&& out@[k].record_path@ == "data.paginatedEvents.collection"@
                    &&& vp_object_is(out@[k].record, vp_fields(items@[k], self.source_id@, scraped_at@))
                },
            decreases items@.len() - i,
        {
            let rec = event_record(&items[i], &self.source_id, &scraped_at);
            out.push(ParsedRecord {
                source_id: self.source_id.clone(),
                envelope_id: self.envelope_id.clone(),
                payload_ref: self.payload_ref.clone(),
                record_path: owned("data.paginatedEvents.collection"),
                record: rec,
            });
            i = i + 1;
        }
        Ok(out)
    }
}

/// No field of `fs` has key `k`.
pub open spec fn keys_avoid(fs: Seq<(Seq<char>, VpValue)>, k: Seq<char>) -> bool {
    forall|j: int| 0 <= j < fs.len() ==> (#[trigger] fs[j]).0 != k
}

proof fn lemma_keys_avoid_add(a: Seq<(Seq<char>, VpValue)>, b: Seq<(Seq<char>, VpValue)>, k: Seq<char>)
    requires
        keys_avoid(a, k),
        keys_avoid(b, k),
    ensures
        keys_avoid(a + b, k),
{
    assert forall|j: int| 0 <= j < (a + b).len() implies (#[trigger] (a + b)[j]).0 != k by {
        if j < a.len() {
            assert((a + b)[j] == a[j]);
        } else {
            assert((a + b)[j] == b[j - a.len()]);
        }
    }
}

proof fn lemma_text_field_avoids(key: Seq<char>, v: Option<Seq<char>>, k: Seq<char>)
    requires
        key != k,
    ensures
        keys_avoid(text_field(key, v), k),
{
}

/// Every event's record carries its `ticketsUrl` as `ticket_url`: when the
/// event's `ticketsUrl` is a text `u`, the record's `ticket_url` is `u`;
/// when it is not a text, the record has no `ticket_url`.
#[verifier::spinoff_prover]
pub proof fn lemma_ticket_url(rec: Json, e: Json, source_id: Seq<char>, scraped_at: Seq<char>)
    requires
        vp_object_is(rec, vp_fields(e, source_id, scraped_at)),
    ensures
        json_get(e, "ticketsUrl"@) matches Some(Json::Str(u)) ==> json_str(json_get(rec, "ticket_url"@)) == Some(u@),
        !(json_get(e, "ticketsUrl"@) matches Some(Json::Str(_))) ==> json_get(rec, "ticket_url"@) is None,
{
    let k = "ticket_url"@;
    reveal_strlit("ticket_url");
    reveal_strlit("title");
    reveal_strlit("event_day");
    reveal_strlit("start_time");
    reveal_strlit("age_restriction");
    reveal_strlit("promoter");
    reveal_strlit("supporting_acts");
    reveal_strlit("description");
    reveal_strlit("ticket_status");
    reveal_strlit("artists");
    reveal_strlit("venue");
    reveal_strlit("source_id");
    reveal_strlit("scraped_at");
    assert("start_time"@[0] != k[0] && "scraped_at"@[0] != k[0]);
    assert(k.len() == 10 && "title"@.len() == 5 && "event_day"@.len() == 9 && "age_restriction"@.len() == 15);
    assert("promoter"@.len() == 8 && "supporting_acts"@.len() == 15 && "description"@.len() == 11);
    assert("ticket_status"@.len() == 13 && "artists"@.len() == 7 && "venue"@.len() == 5 && "source_id"@.len() == 9);
    assert("title"@ != k && "event_day"@ != k && "start_time"@ != k && "age_restriction"@ != k && "promoter"@ != k);
    assert("supporting_acts"@ != k && "description"@ != k && "ticket_status"@ != k && "artists"@ != k && "venue"@ != k);
    assert("source_id"@ != k && "scraped_at"@ != k);
    let a1 = text_field("title"@, str_field(e, "name"@));
    let a2 = date_part(e);
    let a3 = age_part(e);
    let a4 = text_field("promoter"@, str_field(e, "promoter"@));
    let a5 = support_part(e);
    let a6 = text_field("description"@, str_field(e, "description"@));
    let b = text_field("ticket_url"@, str_field(e, "ticketsUrl"@));
    let c1 = text_field("ticket_status"@, str_field(e, "status"@));
    let c2 = artist_part(e);
    let c3 = seq![("venue"@, VpValue::Venue(venue_name_of(e)))];
    let c4 = seq![("source_id"@, VpValue::Text(source_id)), ("scraped_at"@, VpValue::Text(scraped_at))];
    lemma_text_field_avoids("title"@, str_field(e, "name"@), k);
    lemma_text_field_avoids("promoter"@, str_field(e, "promoter"@), k);
    lemma_text_field_avoids("description"@, str_field(e, "description"@), k);
    lemma_text_field_avoids("ticket_status"@, str_field(e, "status"@), k);
    match str_field(e, "date"@) {
        Some(d) => {
            lemma_text_field_avoids("start_time"@, start_time_of(e), k);
            let t: Seq<(Seq<char>, VpValue)> = if date_parse_of(d, "%Y-%m-%d"@) is Ok { text_field("start_time"@, start_time_of(e)) } else { Seq::empty() };
            assert(keys_avoid(seq![("event_day"@, VpValue::Text(d))], k));
            lemma_keys_avoid_add(seq![("event_day"@, VpValue::Text(d))], t, k);
        },
        None => {},
    }
    assert(keys_avoid(a2, k));
    assert(keys_avoid(a3, k));
    assert(keys_avoid(a5, k));
    assert(keys_avoid(c2, k));
    assert(keys_avoid(c3, k));
    assert(keys_avoid(c4, k));
    lemma_keys_avoid_add(a1, a2, k);
    lemma_keys_avoid_add(a1 + a2, a3, k);
    lemma_keys_avoid_add(a1 + a2 + a3, a4, k);
    lemma_keys_avoid_add(a1 + a2 + a3 + a4, a5, k);
    lemma_keys_avoid_add(a1 + a2 + a3 + a4 + a5, a6, k);
    let pre = a1 + a2 + a3 + a4 + a5 + a6;
    lemma_keys_avoid_add(c1, c2, k);
    lemma_keys_avoid_add(c1 + c2, c3, k);
    lemma_keys_avoid_add(c1 + c2 + c3, c4, k);
    let post = c1 + c2 + c3 + c4;
    let fs = vp_fields(e, source_id, scraped_at);
    assert(fs =~= pre + b + post);
    let es = rec->Object_0@;
    lemma_find_key(es, k);
    match str_field(e, "ticketsUrl"@) {
        Some(u) => {
            let p = pre.len() as int;
            assert(fs[p] == (k, VpValue::Text(u)));
            assert(es[p].0@ == k);
            assert forall|j: int| 0 <= j < p implies es[j].0@ != k by {
                assert(fs[j] == pre[j]);
            }
            assert(find_key(es, k) == Some(p));
        },
        None => {
            lemma_keys_avoid_add(pre, b, k);
            lemma_keys_avoid_add(pre + b, post, k);
            assert(keys_avoid(fs, k));
            assert forall|j: int| 0 <= j < es.len() implies es[j].0@ != k by {
                assert(fs[j].0 != k);
            }
            assert(find_key(es, k) is None);
        },
    }
}

/// Every event's record carries the event's `name` as its `title` and the
/// event's `date` as its `event_day`: when the event's `name` is a text
/// `n`, the record's `title` is `n`; when its `date` is a text `d`, the
/// record's `event_day` is `d`.
#[verifier::spinoff_prover]
#[verifier::rlimit(30)]
pub proof fn lemma_title_and_day(rec: Json, e: Json, source_id: Seq<char>, scraped_at: Seq<char>)
    requires
        vp_object_is(rec, vp_fields(e, source_id, scraped_at)),
    ensures
        json_get(e, "name"@) matches Some(Json::Str(n)) ==> json_str(json_get(rec, "title"@)) == Some(n@),
        json_get(e, "date"@) matches Some(Json::Str(d)) ==> json_str(json_get(rec, "event_day"@)) == Some(d@),
{
    let a1 = text_field("title"@, str_field(e, "name"@));
    let a2 = date_part(e);
    let post = age_part(e) + text_field("promoter"@, str_field(e, "promoter"@)) + support_part(e)
        + text_field("description"@, str_field(e, "description"@)) + text_field("ticket_url"@, str_field(e, "ticketsUrl"@))
        + text_field("ticket_status"@, str_field(e, "status"@)) + artist_part(e) + seq![("venue"@, VpValue::Venue(venue_name_of(e)))]
        + seq![("source_id"@, VpValue::Text(source_id)), ("scraped_at"@, VpValue::Text(scraped_at))];
    let fs = vp_fields(e, source_id, scraped_at);
    assert(fs =~= a1 + a2 + post);
    let es = rec->Object_0@;
    if let Some(Json::Str(n)) = json_get(e, "name"@) {
        let k = "title"@;
        assert(fs[0] == (k, VpValue::Text(n@)));
        assert(es[0].0@ == k);
        lemma_find_key(es, k);
        assert(find_key(es, k) == Some(0int));
    }
    if let Some(Json::Str(d)) = json_get(e, "date"@) {
        let k = "event_day"@;
        reveal_strlit("title");
        reveal_strlit("event_day");
        assert("title"@.len() != k.len());
        let p = a1.len() as int;
        assert(a2[0] == (k, VpValue::Text(d@)));
        assert(fs[p] == (k, VpValue::Text(d@)));
        assert(es[p].0@ == k);
        assert forall|j: int| 0 <= j < p implies es[j].0@ != k by {
            assert(fs[j] == a1[j]);
        }
        lemma_find_key(es, k);
        assert(find_key(es, k) == Some(p));
    }
}

/// A text field that stands at `p` of an object's fields, with no field
/// of the same key before it, is what a lookup of that key finds.
proof fn lemma_text_at(rec: Json, fs: Seq<(Seq<char>, VpValue)>, p: int, k: Seq<char>, u: Seq<char>)
    requires
        vp_object_is(rec, fs),
        0 <= p < fs.len(),
        fs[p] == (k, VpValue::Text(u)),
        keys_avoid(fs.subrange(0, p), k),
    ensures
        json_str(json_get(rec, k)) == Some(u),
{
    let es = rec->Object_0@;
    assert(es[p].0@ == k);
    assert forall|j: int| 0 <= j < p implies es[j].0@ != k by {
        assert(fs.subrange(0, p)[j] == fs[j]);
    }
    lemma_find_key(es, k);
    assert(find_key(es, k) == Some(p));
}

/// The keys of the parts of a record before its description.
proof fn lemma_front_keys(e: Json, k: Seq<char>)
    ensures
        k != "title"@ ==> keys_avoid(text_field("title"@, str_field(e, "name"@)), k),
        k != "event_day"@ && k != "start_time"@ ==> keys_avoid(date_part(e), k),
        k != "age_restriction"@ ==> keys_avoid(age_part(e), k),
        k != "promoter"@ ==> keys_avoid(text_field("promoter"@, str_field(e, "promoter"@)), k),
        k != "supporting_acts"@ ==> keys_avoid(support_part(e), k),
        k != "description"@ ==> keys_avoid(text_field("description"@, str_field(e, "description"@)), k),
        k != "ticket_url"@ ==> keys_avoid(text_field("ticket_url"@, str_field(e, "ticketsUrl"@)), k),
{
    if k != "event_day"@ && k != "start_time"@ {
        if let Some(d) = str_field(e, "date"@) {
            let t: Seq<(Seq<char>, VpValue)> = if date_parse_of(d, "%Y-%m-%d"@) is Ok { text_field("start_time"@, start_time_of(e)) } else { Seq::empty() };
            assert(keys_avoid(seq![("event_day"@, VpValue::Text(d))], k));
            lemma_keys_avoid_add(seq![("event_day"@, VpValue::Text(d))], t, k);
        }
    }
}

/// The first fields of the record of event `e`, up to its promoter.
pub open spec fn vp_front(e: Json) -> Seq<(Seq<char>, VpValue)> {
    text_field("title"@, str_field(e, "name"@)) + date_part(e) + age_part(e)
}

/// The fields of the record of event `e` after its ticket status.
pub open spec fn vp_back(e: Json, source_id: Seq<char>, scraped_at: Seq<char>) -> Seq<(Seq<char>, VpValue)> {
    artist_part(e) + seq![("venue"@, VpValue::Venue(venue_name_of(e)))]
        + seq![("source_id"@, VpValue::Text(source_id)), ("scraped_at"@, VpValue::Text(scraped_at))]
}

/// Every event's record carries its promoter: when the event's `promoter`
/// is a text `p`, the record's `promoter` is `p`.
#[verifier::spinoff_prover]
pub proof fn lemma_promoter(rec: Json, e: Json, source_id: Seq<char>, scraped_at: Seq<char>)
    requires
        vp_object_is(rec, vp_fields(e, source_id, scraped_at)),
    ensures
        json_get(e, "promoter"@) matches Some(Json::Str(p)) ==> json_str(json_get(rec, "promoter"@)) == Some(p@),
{
    if let Some(Json::Str(pv)) = json_get(e, "promoter"@) {
        let k = "promoter"@;
        reveal_strlit("promoter");
        reveal_strlit("title");
        reveal_strlit("event_day");
        reveal_strlit("start_time");
        reveal_strlit("age_restriction");
        assert(k.len() == 8 && "title"@.len() == 5 && "event_day"@.len() == 9 && "start_time"@.len() == 10);
        assert("age_restriction"@.len() == 15);
        lemma_front_keys(e, k);
        let front = vp_front(e);
        lemma_keys_avoid_add(text_field("title"@, str_field(e, "name"@)), date_part(e), k);
        lemma_keys_avoid_add(text_field("title"@, str_field(e, "name"@)) + date_part(e), age_part(e), k);
        let fs = vp_fields(e, source_id, scraped_at);
        let rest = support_part(e) + text_field("description"@, str_field(e, "description"@))
            + text_field("ticket_url"@, str_field(e, "ticketsUrl"@)) + text_field("ticket_status"@, str_field(e, "status"@))
            + vp_back(e, source_id, scraped_at);
        assert(fs =~= front + seq![(k, VpValue::Text(pv@))] + rest);
        assert(fs.subrange(0, front.len() as int) =~= front);
        lemma_text_at(rec, fs, front.len() as int, k, pv@);
    }
}

/// Every event's record carries its description: when the event's
/// `description` is a text `d`, the record's `description` is `d`.
#[verifier::spinoff_prover]
pub proof fn lemma_description(rec: Json, e: Json, source_id: Seq<char>, scraped_at: Seq<char>)
    requires
        vp_object_is(rec, vp_fields(e, source_id, scraped_at)),
    ensures
        json_get(e, "description"@) matches Some(Json::Str(d)) ==> json_str(json_get(rec, "description"@)) == Some(d@),
{
    if let Some(Json::Str(dv)) = json_get(e, "description"@) {
        let k = "description"@;
        reveal_strlit("description");
        reveal_strlit("title");
        reveal_strlit("event_day");
        reveal_strlit("start_time");
        reveal_strlit("age_restriction");
        reveal_strlit("promoter");
        reveal_strlit("supporting_acts");
        assert(k.len() == 11 && "title"@.len() == 5 && "event_day"@.len() == 9 && "start_time"@.len() == 10);
        assert("age_restriction"@.len() == 15 && "promoter"@.len() == 8 && "supporting_acts"@.len() == 15);
        lemma_front_keys(e, k);
        let pro = text_field("promoter"@, str_field(e, "promoter"@));
        let pre = vp_front(e) + pro + support_part(e);
        lemma_keys_avoid_add(text_field("title"@, str_field(e, "name"@)), date_part(e), k);
        lemma_keys_avoid_add(text_field("title"@, str_field(e, "name"@)) + date_part(e), age_part(e), k);
        lemma_keys_avoid_add(vp_front(e), pro, k);
        lemma_keys_avoid_add(vp_front(e) + pro, support_part(e), k);
        let fs = vp_fields(e, source_id, scraped_at);
        let rest = text_field("ticket_url"@, str_field(e, "ticketsUrl"@)) + text_field("ticket_status"@, str_field(e, "status"@))
            + vp_back(e, source_id, scraped_at);
        assert(fs =~= pre + seq![(k, VpValue::Text(dv@))] + rest);
        assert(fs.subrange(0, pre.len() as int) =~= pre);
        lemma_text_at(rec, fs, pre.len() as int, k, dv@);
    }
}

/// Every event's record carries its status as `ticket_status`: when the
/// event's `status` is a text `t`, the record's `ticket_status` is `t`.
#[verifier::spinoff_prover]
pub proof fn lemma_ticket_status(rec: Json, e: Json, source_id: Seq<char>, scraped_at: Seq<char>)
    requires
        vp_object_is(rec, vp_fields(e, source_id, scraped_at)),
    ensures
        json_get(e, "status"@) matches Some(Json::Str(t)) ==> json_str(json_get(rec, "ticket_status"@)) == Some(t@),
{
    if let Some(Json::Str(tv)) = json_get(e, "status"@) {
        let k = "ticket_status"@;
        reveal_strlit("ticket_status");
        reveal_strlit("title");
        reveal_strlit("event_day");
        reveal_strlit("start_time");
        reveal_strlit("age_restriction");
        reveal_strlit("promoter");
        reveal_strlit("supporting_acts");
        reveal_strlit("description");
        reveal_strlit("ticket_url");
        assert(k.len() == 13 && "title"@.len() == 5 && "event_day"@.len() == 9 && "start_time"@.len() == 10);
        assert("age_restriction"@.len() == 15 && "promoter"@.len() == 8 && "supporting_acts"@.len() == 15);
        assert("description"@.len() == 11 && "ticket_url"@.len() == 10);
        lemma_front_keys(e, k);
        let pro = text_field("promoter"@, str_field(e, "promoter"@));
        let des = text_field("description"@, str_field(e, "description"@));
        let tix = text_field("ticket_url"@, str_field(e, "ticketsUrl"@));
        let pre = vp_front(e) + pro + support_part(e) + des + tix;
        lemma_keys_avoid_add(text_field("title"@, str_field(e, "name"@)), date_part(e), k);
        lemma_keys_avoid_add(text_field("title"@, str_field(e, "name"@)) + date_part(e), age_part(e), k);
        lemma_keys_avoid_add(vp_front(e), pro, k);
        lemma_keys_avoid_add(vp_front(e) + pro, support_part(e), k);
        lemma_keys_avoid_add(vp_front(e) + pro + support_part(e), des, k);
        lemma_keys_avoid_add(vp_front(e) + pro + support_part(e) + des, tix, k);
        let fs = vp_fields(e, source_id, scraped_at);
        assert(fs =~= pre + seq![(k, VpValue::Text(tv@))] + vp_back(e, source_id, scraped_at));
        assert(fs.subrange(0, pre.len() as int) =~= pre);
        lemma_text_at(rec, fs, pre.len() as int, k, tv@);
    }
}

} // verus!
