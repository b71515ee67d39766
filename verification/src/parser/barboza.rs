//! Barboza event pages: one item per event, with title, date, time, age,
//! location, tickets and image.

use crate::calendar::{date_text, date_text_of};
use crate::domain::CalendarDate;
use crate::html::{attr_of, attr_spec, concat_spec, element_view, html_select, html_select_of, match_view, text_of, HtmlElement, HtmlElementView, HtmlMatch, HtmlMatchView};
use crate::json::Json;
use crate::metrics::views_of;
use crate::parser::kexp::{html_len_fields, or_default};
use crate::parser::{first_text, first_text_of, holds_value, html_len_record, object_is, push_flag, push_text, records_are, same_origin, BarbozaHtmlV1Parser, FieldValue, ParsedRecord};
use crate::text::{
    after_last, contains_spec, contains_str, lowercase_of, owned, parse_u32, parse_u32_spec, replace_spec, replace_str, split_spec, str_eq,
    to_lowercase, trim_spec, trim_str,
};
use vstd::prelude::*;
use vstd::string::*;

verus! {

/// A list of record fields.
pub type Fields = Seq<(Seq<char>, FieldValue)>;

/// The selectors inside an item: title link, tagline, promotion, month,
/// day, time, age, location, ticket link and image.
pub open spec fn barboza_inner() -> Seq<Seq<char>> {
    seq!["h3.title a"@, "h4.tagline"@, "div.promotion-text"@, ".m-date__month"@, ".m-date__day"@, ".meta .time"@, ".meta .age"@,
        ".meta .location"@, "a.tickets"@, ".thumb img"@]
}

/// The trimmed text of an element.
pub open spec fn elem_text(e: HtmlElementView) -> Seq<char> {
    trim_spec(concat_spec(e.texts))
}

/// The number of a three-letter lowercase month name, or 0.
pub open spec fn month_number(m: Seq<char>) -> u32 {
    if m == "jan"@ { 1 } else if m == "feb"@ { 2 } else if m == "mar"@ { 3 } else if m == "apr"@ { 4 }
    else if m == "may"@ { 5 } else if m == "jun"@ { 6 } else if m == "jul"@ { 7 } else if m == "aug"@ { 8 }
    else if m == "sep"@ { 9 } else if m == "oct"@ { 10 } else if m == "nov"@ { 11 } else if m == "dec"@ { 12 } else { 0 }
}

/// The title, and its link and the link's last segment as the id.
pub open spec fn title_part(found: Seq<HtmlElementView>) -> Fields {
    if found.len() == 0 {
        Seq::empty()
    } else {
        let e = found[0];
        seq![("title"@, FieldValue::Text(elem_text(e)))] + match attr_spec(e.attrs, "href"@) {
            Some(h) => seq![("detail_url"@, FieldValue::Text(h)), ("id"@, FieldValue::Text(split_spec(h, '/').last()))],
            None => Seq::empty(),
        }
    }
}

/// A non-empty tagline as the supporting acts.
pub open spec fn tagline_part(found: Seq<HtmlElementView>) -> Fields {
    if found.len() > 0 && elem_text(found[0]).len() > 0 {
        seq![("supporting_acts"@, FieldValue::Text(elem_text(found[0])))]
    } else {
        Seq::empty()
    }
}

/// A field holding the trimmed text of the first element found, if any.
pub open spec fn text_part(key: Seq<char>, found: Seq<HtmlElementView>) -> Fields {
    if found.len() > 0 {
        seq![(key, FieldValue::Text(elem_text(found[0])))]
    } else {
        Seq::empty()
    }
}

/// The day of a month name and day number in `year`, as chrono writes it,
/// with the text it was read from.
pub open spec fn date_part(month: Option<Seq<char>>, day: Option<Seq<char>>, year: i32) -> Fields {
    let ms = or_default(month, Seq::empty());
    let ds = or_default(day, Seq::empty());
    let mo = month_number(lowercase_of(ms));
    if ms.len() > 0 && ds.len() > 0 && mo > 0 && parse_u32_spec(ds) is Some && date_text_of(year, mo, parse_u32_spec(ds)->0) is Some {
        seq![
            ("event_day"@, FieldValue::Text(date_text_of(year, mo, parse_u32_spec(ds)->0)->0)),
            ("date_text"@, FieldValue::Text(ms + " "@ + ds)),
        ]
    } else {
        Seq::empty()
    }
}

/// The time text, and without its `Doors: ` prefix as the event time when
/// it has a `:`.
pub open spec fn time_part(found: Seq<HtmlElementView>) -> Fields {
    if found.len() > 0 {
        let t = elem_text(found[0]);
        seq![("time_text"@, FieldValue::Text(t))] + if contains_spec(t, ":"@) {
            seq![("event_time"@, FieldValue::Text(replace_spec(replace_spec(t, "Doors: "@, ""@), "doors: "@, ""@)))]
        } else {
            Seq::empty()
        }
    } else {
        Seq::empty()
    }
}

/// The location as the venue, `The Barboza` by default.
pub open spec fn venue_part(found: Seq<HtmlElementView>) -> Fields {
    seq![("venue"@, FieldValue::Text(if found.len() > 0 { elem_text(found[0]) } else { "The Barboza"@ }))]
}

/// The ticket link, and whether tickets are on sale (its class has
/// `onsalenow`).
pub open spec fn ticket_part(found: Seq<HtmlElementView>) -> Fields {
    if found.len() > 0 {
        let e = found[0];
        (match attr_spec(e.attrs, "href"@) {
            Some(h) => seq![("ticket_url"@, FieldValue::Text(h))],
            None => Seq::empty(),
        }) + seq![("tickets_on_sale"@, FieldValue::Flag(contains_spec(or_default(attr_spec(e.attrs, "class"@), Seq::empty()), "onsalenow"@)))]
    } else {
        Seq::empty()
    }
}

/// The image source.
pub open spec fn image_part(found: Seq<HtmlElementView>) -> Fields {
    if found.len() > 0 {
        match attr_spec(found[0].attrs, "src"@) {
            Some(s) => seq![("image_url"@, FieldValue::Text(s))],
            None => Seq::empty(),
        }
    } else {
        Seq::empty()
    }
}

/// The fields of one item.
pub open spec fn barboza_fields(m: HtmlMatchView, year: i32) -> Fields {
    title_part(m.inner[0]) + tagline_part(m.inner[1]) + text_part("promoter"@, m.inner[2])
        + date_part(first_text(m.inner[3]), first_text(m.inner[4]), year) + time_part(m.inner[5])
        + text_part("age_restriction"@, m.inner[6]) + venue_part(m.inner[7]) + ticket_part(m.inner[8])
        + image_part(m.inner[9]) + seq![("public"@, FieldValue::Flag(true)), ("source"@, FieldValue::Text("barboza"@))]
}

/// Whether an item is kept: it has a title or a day.
pub open spec fn barboza_kept(m: HtmlMatchView, year: i32) -> bool {
    m.inner.len() == 10 && (m.inner[0].len() > 0 || date_part(first_text(m.inner[3]), first_text(m.inner[4]), year).len() > 0)
}

/// The records of the items of a page, in order.
pub open spec fn barboza_records(ms: Seq<HtmlMatchView>, year: i32) -> Seq<Fields>
    decreases ms.len(),
{
    if ms.len() == 0 {
        Seq::empty()
    } else {
        let prev = barboza_records(ms.drop_last(), year);
        if barboza_kept(ms.last(), year) {
            prev.push(barboza_fields(ms.last(), year))
        } else {
            prev
        }
    }
}

/// The views of found elements.
pub open spec fn found_view(found: Vec<HtmlElement>) -> Seq<HtmlElementView> {
    found@.map_values(|e: HtmlElement| element_view(e))
}

fn push_title(entries: &mut Vec<(String, Json)>, found: &Vec<HtmlElement>, Ghost(acc): Ghost<Fields>)
    requires
        object_is(Json::Object(*old(entries)), acc),
    ensures
        object_is(Json::Object(*final(entries)), acc + title_part(found_view(*found))),
{
    if found.len() == 0 {
        assert(acc + title_part(found_view(*found)) =~= acc);
        return;
    }
    let t = text_of(&found[0]);
    let title = trim_str(t.as_str());
    let ghost tv = title@;
    proof {
        reveal_strlit("href");
    }
    push_text(entries, "title", title, Ghost(acc));
    let ghost acc1 = acc.push(("title"@, FieldValue::Text(tv)));
    match attr_of(&found[0], "href") {
        Some(h) => {
            let id = after_last(h.as_str(), '/');
            let ghost hv = h@;
            push_text(entries, "detail_url", h, Ghost(acc1));
            push_text(entries, "id", id, Ghost(acc1.push(("detail_url"@, FieldValue::Text(hv)))));
            assert(acc1.push(("detail_url"@, FieldValue::Text(hv))).push(("id"@, FieldValue::Text(split_spec(hv, '/').last())))
                =~= acc + title_part(found_view(*found)));
        },
        None => {
            assert(acc1 =~= acc + title_part(found_view(*found)));
        },
    }
}

fn push_text_part(entries: &mut Vec<(String, Json)>, key: &str, found: &Vec<HtmlElement>, Ghost(acc): Ghost<Fields>)
    requires
        object_is(Json::Object(*old(entries)), acc),
    ensures
        object_is(Json::Object(*final(entries)), acc + text_part(key@, found_view(*found))),
{
    match first_text_of(found) {
        Some(t) => {
            let ghost tv = t@;
            push_text(entries, key, t, Ghost(acc));
            assert(acc.push((key@, FieldValue::Text(tv))) =~= acc + text_part(key@, found_view(*found)));
        },
        None => {
            assert(acc + text_part(key@, found_view(*found)) =~= acc);
        },
    }
}

fn push_tagline(entries: &mut Vec<(String, Json)>, found: &Vec<HtmlElement>, Ghost(acc): Ghost<Fields>)
    requires
        object_is(Json::Object(*old(entries)), acc),
    ensures
        object_is(Json::Object(*final(entries)), acc + tagline_part(found_view(*found))),
{
    match first_text_of(found) {
        Some(t) => {
            if t.unicode_len() > 0 {
                let ghost tv = t@;
                push_text(entries, "supporting_acts", t, Ghost(acc));
                assert(acc.push(("supporting_acts"@, FieldValue::Text(tv))) =~= acc + tagline_part(found_view(*found)));
            } else {
                assert(acc + tagline_part(found_view(*found)) =~= acc);
            }
        },
        None => {
            assert(acc + tagline_part(found_view(*found)) =~= acc);
        },
    }
}

/// The number of a three-letter lowercase month name, or 0.
pub fn month_of(m: &str) -> (r: u32)
    ensures
        r == month_number(m@),
{
    proof {
        reveal_strlit("jan");
        reveal_strlit("feb");
        reveal_strlit("mar");
        reveal_strlit("apr");
        reveal_strlit("may");
        reveal_strlit("jun");
        reveal_strlit("jul");
        reveal_strlit("aug");
        reveal_strlit("sep");
        reveal_strlit("oct");
        reveal_strlit("nov");
        reveal_strlit("dec");
    }
    if str_eq(m, "jan") { 1 } else if str_eq(m, "feb") { 2 } else if str_eq(m, "mar") { 3 } else if str_eq(m, "apr") { 4 }
    else if str_eq(m, "may") { 5 } else if str_eq(m, "jun") { 6 } else if str_eq(m, "jul") { 7 } else if str_eq(m, "aug") { 8 }
    else if str_eq(m, "sep") { 9 } else if str_eq(m, "oct") { 10 } else if str_eq(m, "nov") { 11 } else if str_eq(m, "dec") { 12 }
    else { 0 }
}

fn push_date(entries: &mut Vec<(String, Json)>, month: &Vec<HtmlElement>, day: &Vec<HtmlElement>, year: i32, Ghost(acc): Ghost<Fields>)
    requires
        object_is(Json::Object(*old(entries)), acc),
    ensures
        object_is(Json::Object(*final(entries)), acc + date_part(first_text(found_view(*month)), first_text(found_view(*day)), year)),
{
    let ghost part = date_part(first_text(found_view(*month)), first_text(found_view(*day)), year);
    let ms = match first_text_of(month) {
        Some(t) => t,
        None => String::new(),
    };
    let ds = match first_text_of(day) {
        Some(t) => t,
        None => String::new(),
    };
    if ms.unicode_len() == 0 || ds.unicode_len() == 0 {
        assert(acc + part =~= acc);
        return;
    }
    let lower = to_lowercase(ms.as_str());
    let mo = month_of(lower.as_str());
    if mo == 0 {
        assert(acc + part =~= acc);
        return;
    }
    match parse_u32(ds.as_str()) {
        Some(d) => match date_text(CalendarDate { year, month: mo, day: d }) {
            Some(t) => {
                let ghost tv = t@;
                let mut dt = ms.clone();
                dt.append(" ");
                dt.append(ds.as_str());
                let ghost dv = dt@;
                push_text(entries, "event_day", t, Ghost(acc));
                push_text(entries, "date_text", dt, Ghost(acc.push(("event_day"@, FieldValue::Text(tv)))));
                assert(acc.push(("event_day"@, FieldValue::Text(tv))).push(("date_text"@, FieldValue::Text(dv))) =~= acc + part);
            },
            None => {
                assert(acc + part =~= acc);
            },
        },
        None => {
            assert(acc + part =~= acc);
        },
    }
}

fn push_time(entries: &mut Vec<(String, Json)>, found: &Vec<HtmlElement>, Ghost(acc): Ghost<Fields>)
    requires
        object_is(Json::Object(*old(entries)), acc),
    ensures
        object_is(Json::Object(*final(entries)), acc + time_part(found_view(*found))),
{
    match first_text_of(found) {
        Some(t) => {
            let ghost tv = t@;
            let has_colon = contains_str(t.as_str(), ":");
            let cleaned = if has_colon {
                proof {
                    reveal_strlit("Doors: ");
                    reveal_strlit("doors: ");
                }
                let a = replace_str(t.as_str(), "Doors: ", "");
                Some(replace_str(a.as_str(), "doors: ", ""))
            } else {
                None
            };
            push_text(entries, "time_text", t, Ghost(acc));
            let ghost acc1 = acc.push(("time_text"@, FieldValue::Text(tv)));
            match cleaned {
                Some(c) => {
                    let ghost cv = c@;
                    push_text(entries, "event_time", c, Ghost(acc1));
                    assert(acc1.push(("event_time"@, FieldValue::Text(cv))) =~= acc + time_part(found_view(*found)));
                },
                None => {
                    assert(acc1 =~= acc + time_part(found_view(*found)));
                },
            }
        },
        None => {
            assert(acc + time_part(found_view(*found)) =~= acc);
        },
    }
}

fn push_venue(entries: &mut Vec<(String, Json)>, found: &Vec<HtmlElement>, Ghost(acc): Ghost<Fields>)
    requires
        object_is(Json::Object(*old(entries)), acc),
    ensures
        object_is(Json::Object(*final(entries)), acc + venue_part(found_view(*found))),
{
    let v = match first_text_of(found) {
        Some(t) => t,
        None => owned("The Barboza"),
    };
    let ghost vv = v@;
    push_text(entries, "venue", v, Ghost(acc));
    assert(acc.push(("venue"@, FieldValue::Text(vv))) =~= acc + venue_part(found_view(*found)));
}

fn push_ticket(entries: &mut Vec<(String, Json)>, found: &Vec<HtmlElement>, Ghost(acc): Ghost<Fields>)
    requires
        object_is(Json::Object(*old(entries)), acc),
    ensures
        object_is(Json::Object(*final(entries)), acc + ticket_part(found_view(*found))),
{
    if found.len() == 0 {
        assert(acc + ticket_part(found_view(*found)) =~= acc);
        return;
    }
    proof {
        reveal_strlit("href");
        reveal_strlit("class");
    }
    let ghost acc1 = match attr_spec(found_view(*found)[0].attrs, "href"@) {
        Some(h) => acc.push(("ticket_url"@, FieldValue::Text(h))),
        None => acc,
    };
    match attr_of(&found[0], "href") {
        Some(h) => {
            push_text(entries, "ticket_url", h, Ghost(acc));
        },
        None => {},
    }
    let class = match attr_of(&found[0], "class") {
        Some(c) => c,
        None => String::new(),
    };
    let on_sale = contains_str(class.as_str(), "onsalenow");
    push_flag(entries, "tickets_on_sale", on_sale, Ghost(acc1));
    assert(acc1.push(("tickets_on_sale"@, FieldValue::Flag(on_sale))) =~= acc + ticket_part(found_view(*found)));
}

fn push_image(entries: &mut Vec<(String, Json)>, found: &Vec<HtmlElement>, Ghost(acc): Ghost<Fields>)
    requires
        object_is(Json::Object(*old(entries)), acc),
    ensures
        object_is(Json::Object(*final(entries)), acc + image_part(found_view(*found))),
{
    if found.len() == 0 {
        assert(acc + image_part(found_view(*found)) =~= acc);
        return;
    }
    proof {
        reveal_strlit("src");
    }
    match attr_of(&found[0], "src") {
        Some(src) => {
            let ghost sv = src@;
            push_text(entries, "image_url", src, Ghost(acc));
            assert(acc.push(("image_url"@, FieldValue::Text(sv))) =~= acc + image_part(found_view(*found)));
        },
        None => {
            assert(acc + image_part(found_view(*found)) =~= acc);
        },
    }
}

/// The record of one item, and whether it is kept.
fn item_record(m: &HtmlMatch, year: i32) -> (r: (Vec<(String, Json)>, bool))
    requires
        m.inner@.len() == 10,
    ensures
        object_is(Json::Object(r.0), barboza_fields(match_view(*m), year)),
        r.1 == barboza_kept(match_view(*m), year),
{
    let ghost mv = match_view(*m);
    assert(forall|k: int| 0 <= k < 10 ==> mv.inner[k] == found_view(m.inner@[k]));
    let mut entries: Vec<(String, Json)> = Vec::new();
    let ghost a0: Fields = Seq::empty();
    assert(object_is(Json::Object(entries), a0));
    push_title(&mut entries, &m.inner[0], Ghost(a0));
    let ghost a1 = a0 + title_part(mv.inner[0]);
    push_tagline(&mut entries, &m.inner[1], Ghost(a1));
    let ghost a2 = a1 + tagline_part(mv.inner[1]);
    push_text_part(&mut entries, "promoter", &m.inner[2], Ghost(a2));
    let ghost a3 = a2 + text_part("promoter"@, mv.inner[2]);
    push_date(&mut entries, &m.inner[3], &m.inner[4], year, Ghost(a3));
    let ghost a4 = a3 + date_part(first_text(mv.inner[3]), first_text(mv.inner[4]), year);
    push_time(&mut entries, &m.inner[5], Ghost(a4));
    let ghost a5 = a4 + time_part(mv.inner[5]);
    push_text_part(&mut entries, "age_restriction", &m.inner[6], Ghost(a5));
    let ghost a6 = a5 + text_part("age_restriction"@, mv.inner[6]);
    push_venue(&mut entries, &m.inner[7], Ghost(a6));
    let ghost a7 = a6 + venue_part(mv.inner[7]);
    push_ticket(&mut entries, &m.inner[8], Ghost(a7));
    let ghost a8 = a7 + ticket_part(mv.inner[8]);
    push_image(&mut entries, &m.inner[9], Ghost(a8));
    let ghost a9 = a8 + image_part(mv.inner[9]);
    push_flag(&mut entries, "public", true, Ghost(a9));
    push_text(&mut entries, "source", owned("barboza"), Ghost(a9.push(("public"@, FieldValue::Flag(true)))));
    proof {
        reveal_strlit("barboza");
        assert(a9.push(("public"@, FieldValue::Flag(true))).push(("source"@, FieldValue::Text("barboza"@)))
            =~= barboza_fields(mv, year));
    }
    let has_title = m.inner[0].len() > 0;
    let ghost dp = date_part(first_text(mv.inner[3]), first_text(mv.inner[4]), year);
    let has_day = {
        let ms = first_text_of(&m.inner[3]);
        let ds = first_text_of(&m.inner[4]);
        match (ms, ds) {
            (Some(x), Some(y)) => {
                if x.unicode_len() == 0 || y.unicode_len() == 0 {
                    false
                } else {
                    let lower = to_lowercase(x.as_str());
                    let mo = month_of(lower.as_str());
                    if mo == 0 {
                        false
                    } else {
                        match parse_u32(y.as_str()) {
                            Some(d) => date_text(CalendarDate { year, month: mo, day: d }).is_some(),
                            None => false,
                        }
                    }
                }
            },
            _ => false,
        }
    };
    assert(has_day == (dp.len() > 0));
    (entries, has_title || has_day)
}

/// What parsing a Barboza page gives with dates read in `year`.
pub open spec fn barboza_parsed(r: Seq<ParsedRecord>, html: Seq<char>, year: i32) -> bool {
    match html_select_of(html, "div.eventItem"@, barboza_inner()) {
        Some(ms) => if barboza_records(ms, year).len() > 0 {
            records_are(r, "div.eventItem"@, barboza_records(ms, year))
        } else {
            records_are(r, "html"@, seq![html_len_record(vstd::utf8::encode_utf8(html).len())])
        },
        None => records_are(r, "html"@, seq![html_len_record(vstd::utf8::encode_utf8(html).len())]),
    }
}

impl BarbozaHtmlV1Parser {
    /// The events of a Barboza page, dates read in the current local year.
    pub fn parse(&self, html: &str) -> (r: Vec<ParsedRecord>)
        ensures
            forall|i: int| 0 <= i < r@.len() ==> same_origin(#[trigger] r@[i], self.source_id@, self.envelope_id@, self.payload_ref@),
            exists|y: i32| #[trigger] barboza_parsed(r@, html@, y),
    {
        let y = crate::calendar::local_year();
        let r = self.parse_for_year(html, y);
        assert(barboza_parsed(r@, html@, y));
        r
    }

    /// The events of a Barboza page (path `div.eventItem`), dates read in
    /// `current_year`; the page's length (path `html`) when it has none.
    pub fn parse_for_year(&self, html: &str, current_year: i32) -> (r: Vec<ParsedRecord>)
        ensures
            forall|i: int| 0 <= i < r@.len() ==> same_origin(#[trigger] r@[i], self.source_id@, self.envelope_id@, self.payload_ref@),
            barboza_parsed(r@, html@, current_year),
    {
        let mut inner: Vec<String> = Vec::new();
        inner.push(owned("h3.title a"));
        inner.push(owned("h4.tagline"));
        inner.push(owned("div.promotion-text"));
        inner.push(owned(".m-date__month"));
        inner.push(owned(".m-date__day"));
        inner.push(owned(".meta .time"));
        inner.push(owned(".meta .age"));
        inner.push(owned(".meta .location"));
        inner.push(owned("a.tickets"));
        inner.push(owned(".thumb img"));
        assert(views_of(inner@) =~= barboza_inner());
        let found = html_select(html, "div.eventItem", &inner);
        let mut out: Vec<ParsedRecord> = Vec::new();
        if let Some(ms) = found {
            let ghost mv = ms@.map_values(|m: HtmlMatch| match_view(m));
            let mut i: usize = 0;
            while i < ms.len()
                invariant
                    i <= ms@.len(),
                    mv == ms@.map_values(|m: HtmlMatch| match_view(m)),
                    forall|j: int| 0 <= j < out@.len() ==> same_origin(#[trigger] out@[j], self.source_id@, self.envelope_id@, self.payload_ref@),
                    records_are(out@, "div.eventItem"@, barboza_records(mv.subrange(0, i as int), current_year)),
                decreases ms@.len() - i,
            {
                let ghost pre = mv.subrange(0, i + 1);
                assert(pre.drop_last() =~= mv.subrange(0, i as int));
                assert(pre.last() == match_view(ms@[i as int]));
                let ghost before = out@;
                if ms[i].inner.len() == 10 {
                    let (entries, keep) = item_record(&ms[i], current_year);
                    if keep {
                        out.push(ParsedRecord {
                            source_id: self.source_id.clone(),
                            envelope_id: self.envelope_id.clone(),
                            payload_ref: self.payload_ref.clone(),
                            record_path: owned("div.eventItem"),
                            record: Json::Object(entries),
                        });
                        proof {
                            reveal_strlit("div.eventItem");
                            let nd = barboza_records(pre, current_year);
                            assert forall|j: int| 0 <= j < nd.len() implies (#[trigger] out@[j]).record_path@ == "div.eventItem"@
                                && object_is(out@[j].record, nd[j]) by {
                                if j < before.len() {
                                    assert(out@[j] == before[j]);
                                }
                            }
                        }
                    }
                }
                i = i + 1;
            }
            assert(mv.subrange(0, ms@.len() as int) =~= mv);
        }
        if out.len() == 0 {
            let rec = html_len_fields(html);
            out.push(ParsedRecord {
                source_id: self.source_id.clone(),
                envelope_id: self.envelope_id.clone(),
                payload_ref: self.payload_ref.clone(),
                record_path: owned("html"),
                record: rec,
            });
        }
        out
    }
}

/// Each Barboza item's record opens with the item's title when it has one,
/// holds a `venue` field with the item's location (`The Barboza` when it
/// names none), and closes with `public` set to true and `source` set to
/// `barboza`.
pub proof fn lemma_barboza_record(m: HtmlMatchView, year: i32)
    requires
        m.inner.len() == 10,
    ensures
        ({
            let f = barboza_fields(m, year);
            &&& f.len() >= 3
            &&& f[f.len() - 2] == ("public"@, FieldValue::Flag(true))
            &&& f[f.len() - 1] == ("source"@, FieldValue::Text("barboza"@))
            &&& m.inner[0].len() > 0 ==> f[0] == ("title"@, FieldValue::Text(elem_text(m.inner[0][0])))
            &&& f.contains(("venue"@, FieldValue::Text(if m.inner[7].len() > 0 { elem_text(m.inner[7][0]) } else { "The Barboza"@ })))
        }),
{
    let f = barboza_fields(m, year);
    let a = title_part(m.inner[0]) + tagline_part(m.inner[1]) + text_part("promoter"@, m.inner[2])
        + date_part(first_text(m.inner[3]), first_text(m.inner[4]), year) + time_part(m.inner[5])
        + text_part("age_restriction"@, m.inner[6]);
    let v = venue_part(m.inner[7]);
    let b = ticket_part(m.inner[8]) + image_part(m.inner[9]);
    let tail = seq![("public"@, FieldValue::Flag(true)), ("source"@, FieldValue::Text("barboza"@))];
    assert(f =~= a + v + b + tail);
    assert(f[a.len() as int] == v[0]);
    assert(f[f.len() - 2] == tail[0]);
    assert(f[f.len() - 1] == tail[1]);
    if m.inner[0].len() > 0 {
        assert(title_part(m.inner[0])[0] == ("title"@, FieldValue::Text(elem_text(m.inner[0][0]))));
        assert(f[0] == title_part(m.inner[0])[0]);
    }
}

} // verus!
