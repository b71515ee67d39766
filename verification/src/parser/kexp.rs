//! KEXP event pages: date headers followed by the event items of that day.

use crate::html::{element_view, html_select, html_select_of, matches_view, text_of, HtmlMatchView};
use crate::metrics::views_of;
use crate::parser::{
    first_text, first_text_of, holds_value, html_len_record, object_is, push_flag, push_text, records_are, same_origin,
    FieldValue, KexpHtmlV1Parser, ParsedRecord,
};
use crate::text::{decimal_spec, join, join_spec, owned, str_eq, u64_text};
use crate::json::Json;
use vstd::prelude::*;
use vstd::string::*;

verus! {

/// The selectors of a KEXP page: headers and items, then inside an item its
/// title link, time, location link and description.
pub open spec fn kexp_inner() -> Seq<Seq<char>> {
    seq![".EventItem-body h3 a"@, ".EventItem-DateTime h5"@, ".EventItem-body .u-h3 a"@, ".EventItem-description"@]
}

/// The fields of one KEXP event.
pub open spec fn kexp_fields(title: Seq<char>, day: Seq<char>, time: Seq<char>, location: Seq<char>, description: Seq<char>) -> Seq<(Seq<char>, FieldValue)> {
    seq![
        ("title"@, FieldValue::Text(title)),
        ("event_day"@, FieldValue::Text(day)),
        ("event_time"@, FieldValue::Text(time)),
        ("location"@, FieldValue::Text(location)),
        ("description"@, FieldValue::Text(description)),
        ("source"@, FieldValue::Text("kexp"@)),
        ("public"@, FieldValue::Flag(true)),
    ]
}

/// A value or a default.
pub open spec fn or_default(o: Option<Seq<char>>, d: Seq<char>) -> Seq<char> {
    match o {
        Some(x) => x,
        None => d,
    }
}

/// The events of the page's headers and items from `ms` on, `day` being the
/// last header seen: each item with a title other than `Unknown Event`,
/// under the day of the header before it (empty before any).
pub open spec fn kexp_scan(ms: Seq<HtmlMatchView>, day: Option<Seq<char>>) -> Seq<Seq<(Seq<char>, FieldValue)>>
    decreases ms.len(),
{
    if ms.len() == 0 {
        Seq::empty()
    } else {
        let m = ms[0];
        let rest = ms.subrange(1, ms.len() as int);
        if m.element.name == "h2"@ {
            kexp_scan(rest, Some(join_spec(m.element.texts, " "@)))
        } else if m.element.name == "article"@ && m.inner.len() == 4 {
            let title = or_default(first_text(m.inner[0]), "Unknown Event"@);
            if title.len() == 0 || title == "Unknown Event"@ {
                kexp_scan(rest, day)
            } else {
                seq![kexp_fields(title, or_default(day, Seq::empty()), or_default(first_text(m.inner[1]), Seq::empty()),
                    or_default(first_text(m.inner[2]), "KEXP Studio"@), or_default(first_text(m.inner[3]), Seq::empty()))]
                    + kexp_scan(rest, day)
            }
        } else {
            kexp_scan(rest, day)
        }
    }
}

/// The selector of headers and items.
pub open spec fn kexp_selector() -> Seq<char> {
    "h2, article.EventItem"@
}

/// The fallback record of a page: its length in bytes.
pub fn html_len_fields(html: &str) -> (r: Json)
    ensures
        object_is(r, html_len_record(vstd::utf8::encode_utf8(html@).len())),
{
    let mut entries: Vec<(String, Json)> = Vec::new();
    let n = html.as_bytes().len();
    let t = u64_text(n as u64);
    let ghost tv = t@;
    entries.push((owned("html_len"), Json::Number(t)));
    proof {
        reveal_strlit("html_len");
        let f = html_len_record(vstd::utf8::encode_utf8(html@).len());
        assert(entries@[0].0@ == f[0].0);
        assert(holds_value(entries@[0].1, f[0].1));
    }
    Json::Object(entries)
}

/// The records `r` of a KEXP page: one per event item, else the page's
/// length.
pub open spec fn kexp_parsed(r: Seq<ParsedRecord>, html: Seq<char>, source_id: Seq<char>, envelope_id: Seq<char>, payload_ref: Seq<char>) -> bool {
    &&& forall|i: int| 0 <= i < r.len() ==> same_origin(#[trigger] r[i], source_id, envelope_id, payload_ref)
    &&& match html_select_of(html, kexp_selector(), kexp_inner()) {
        Some(ms) => if kexp_scan(ms, None).len() > 0 {
            records_are(r, "article.EventItem"@, kexp_scan(ms, None))
        } else {
            records_are(r, "html"@, seq![html_len_record(vstd::utf8::encode_utf8(html).len())])
        },
        None => records_are(r, "html"@, seq![html_len_record(vstd::utf8::encode_utf8(html).len())]),
    }
}

impl KexpHtmlV1Parser {
    /// The events of a KEXP page (path `article.EventItem`); the page's
    /// length (path `html`) when it has none.
    pub fn parse(&self, html: &str) -> (r: Vec<ParsedRecord>)
        ensures
            kexp_parsed(r@, html@, self.source_id@, self.envelope_id@, self.payload_ref@),
            forall|i: int| 0 <= i < r@.len() ==> same_origin(#[trigger] r@[i], self.source_id@, self.envelope_id@, self.payload_ref@),
            match html_select_of(html@, kexp_selector(), kexp_inner()) {
                Some(ms) => if kexp_scan(ms, None).len() > 0 {
                    records_are(r@, "article.EventItem"@, kexp_scan(ms, None))
                } else {
                    records_are(r@, "html"@, seq![html_len_record(vstd::utf8::encode_utf8(html@).len())])
                },
                None => records_are(r@, "html"@, seq![html_len_record(vstd::utf8::encode_utf8(html@).len())]),
            },
    {
        let mut inner: Vec<String> = Vec::new();
        inner.push(owned(".EventItem-body h3 a"));
        inner.push(owned(".EventItem-DateTime h5"));
        inner.push(owned(".EventItem-body .u-h3 a"));
        inner.push(owned(".EventItem-description"));
        assert(views_of(inner@) =~= kexp_inner());
        let found = html_select(html, "h2, article.EventItem", &inner);
        let mut out: Vec<ParsedRecord> = Vec::new();
        if let Some(ms) = found {
            let ghost mv = ms@.map_values(|m: crate::html::HtmlMatch| crate::html::match_view(m));
            let ghost total = kexp_scan(mv, None);
            let mut day: Option<String> = None;
            let mut i: usize = 0;
            assert(mv.subrange(0, mv.len() as int) =~= mv);
            proof {
                let e0: Seq<Seq<(Seq<char>, FieldValue)>> = Seq::empty();
                assert(records_are(out@, "article.EventItem"@, e0));
                assert(e0 + kexp_scan(mv.subrange(0, mv.len() as int), crate::text::opt_view(day)) =~= total);
            }
            while i < ms.len()
                invariant
                    i <= ms@.len(),
                    mv == ms@.map_values(|m: crate::html::HtmlMatch| crate::html::match_view(m)),
                    forall|j: int| 0 <= j < out@.len() ==> same_origin(#[trigger] out@[j], self.source_id@, self.envelope_id@, self.payload_ref@),
                    exists|done: Seq<Seq<(Seq<char>, FieldValue)>>| records_are(out@, "article.EventItem"@, done)
                        && done + kexp_scan(mv.subrange(i as int, mv.len() as int), crate::text::opt_view(day)) == total,
                decreases ms@.len() - i,
            {
                let ghost done = choose|done: Seq<Seq<(Seq<char>, FieldValue)>>| records_are(out@, "article.EventItem"@, done)
                    && done + kexp_scan(mv.subrange(i as int, mv.len() as int), crate::text::opt_view(day)) == total;
                let ghost rest = mv.subrange(i as int, mv.len() as int);
                assert(rest[0] == mv[i as int]);
                assert(rest.subrange(1, rest.len() as int) =~= mv.subrange(i + 1, mv.len() as int));
                let m = &ms[i];
                proof {
                    reveal_strlit("h2");
                    reveal_strlit("article");
                }
                if str_eq(m.element.name.as_str(), "h2") {
                    day = Some(join(&m.element.texts, " "));
                } else if str_eq(m.element.name.as_str(), "article") && m.inner.len() == 4 {
                    let title = match first_text_of(&m.inner[0]) {
                        Some(t) => t,
                        None => owned("Unknown Event"),
                    };
                    if !(title.unicode_len() == 0 || str_eq(title.as_str(), "Unknown Event")) {
                        let time = match first_text_of(&m.inner[1]) {
                            Some(t) => t,
                            None => String::new(),
                        };
                        let location = match first_text_of(&m.inner[2]) {
                            Some(t) => t,
                            None => owned("KEXP Studio"),
                        };
                        let description = match first_text_of(&m.inner[3]) {
                            Some(t) => t,
                            None => String::new(),
                        };
                        let day_text = match &day {
                            Some(d) => d.clone(),
                            None => String::new(),
                        };
                        let ghost fields = kexp_fields(title@, day_text@, time@, location@, description@);
                        let mut entries: Vec<(String, Json)> = Vec::new();
                        assert(object_is(Json::Object(entries), Seq::empty()));
                        push_text(&mut entries, "title", title, Ghost(Seq::empty()));
                        push_text(&mut entries, "event_day", day_text, Ghost(fields.subrange(0, 1)));
                        push_text(&mut entries, "event_time", time, Ghost(fields.subrange(0, 2)));
                        push_text(&mut entries, "location", location, Ghost(fields.subrange(0, 3)));
                        push_text(&mut entries, "description", description, Ghost(fields.subrange(0, 4)));
                        push_text(&mut entries, "source", owned("kexp"), Ghost(fields.subrange(0, 5)));
                        push_flag(&mut entries, "public", true, Ghost(fields.subrange(0, 6)));
                        proof {
                            reveal_strlit("title");
                            reveal_strlit("event_day");
                            reveal_strlit("event_time");
                            reveal_strlit("location");
                            reveal_strlit("description");
                            reveal_strlit("source");
                            reveal_strlit("public");
                            reveal_strlit("kexp");
                            assert(Seq::<(Seq<char>, FieldValue)>::empty().push(("title"@, FieldValue::Text(title@))) =~= fields.subrange(0, 1));
                            assert(fields.subrange(0, 1).push(("event_day"@, FieldValue::Text(day_text@))) =~= fields.subrange(0, 2));
                            assert(fields.subrange(0, 2).push(("event_time"@, FieldValue::Text(time@))) =~= fields.subrange(0, 3));
                            assert(fields.subrange(0, 3).push(("location"@, FieldValue::Text(location@))) =~= fields.subrange(0, 4));
                            assert(fields.subrange(0, 4).push(("description"@, FieldValue::Text(description@))) =~= fields.subrange(0, 5));
                            assert(fields.subrange(0, 5).push(("source"@, FieldValue::Text("kexp"@))) =~= fields.subrange(0, 6));
                            assert(fields.subrange(0, 6).push(("public"@, FieldValue::Flag(true))) =~= fields);
                        }
                        let ghost before = out@;
                        out.push(ParsedRecord {
                            source_id: self.source_id.clone(),
                            envelope_id: self.envelope_id.clone(),
                            payload_ref: self.payload_ref.clone(),
                            record_path: owned("article.EventItem"),
                            record: Json::Object(entries),
                        });
                        proof {
                            reveal_strlit("article.EventItem");
                            let nd = done.push(fields);
                            assert(records_are(out@, "article.EventItem"@, nd)) by {
                                assert forall|j: int| 0 <= j < nd.len() implies (#[trigger] out@[j]).record_path@ == "article.EventItem"@
                                    && object_is(out@[j].record, nd[j]) by {
                                    if j < done.len() {
                                        assert(out@[j] == before[j]);
                                    }
                                }
                            }
                            assert(nd + kexp_scan(mv.subrange(i + 1, mv.len() as int), crate::text::opt_view(day)) =~= done + (seq![fields] + kexp_scan(mv.subrange(i + 1, mv.len() as int), crate::text::opt_view(day))));
                        }
                    }
                }
                i = i + 1;
            }
            proof {
                let done = choose|done: Seq<Seq<(Seq<char>, FieldValue)>>| records_are(out@, "article.EventItem"@, done)
                    && done + kexp_scan(mv.subrange(i as int, mv.len() as int), crate::text::opt_view(day)) == total;
                assert(mv.subrange(i as int, mv.len() as int) =~= Seq::<HtmlMatchView>::empty());
                assert(done + Seq::<Seq<(Seq<char>, FieldValue)>>::empty() =~= done);
            }
        }
        if out.len() == 0 {
            let rec = html_len_fields(html);
            out.push(ParsedRecord {
                source_id: self.source_id.clone(),
                envelope_id: self.envelope_id.clone(),
                payload_ref: self.payload_ref.clone(),
                record_path: owned("html"),
                record: rec,
            });
        }
        out
    }
}

/// A KEXP event record: `title` (neither empty nor `Unknown Event`),
/// `event_day`, `event_time`, `location`, `description`, then `source`
/// set to `kexp` and `public` set to true.
pub open spec fn is_kexp_event(f: Seq<(Seq<char>, FieldValue)>) -> bool {
    &&& f.len() == 7
    &&& f[0].0 == "title"@
    &&& f[0].1 matches FieldValue::Text(t) && t.len() > 0 && t != "Unknown Event"@
    &&& f[1].0 == "event_day"@ && f[2].0 == "event_time"@ && f[3].0 == "location"@ && f[4].0 == "description"@
    &&& f[5] == ("source"@, FieldValue::Text("kexp"@))
    &&& f[6] == ("public"@, FieldValue::Flag(true))
}

/// Every event a KEXP page yields has the fields of a KEXP event: items
/// without a title, or titled `Unknown Event`, yield none.
pub proof fn lemma_kexp_events(ms: Seq<HtmlMatchView>, day: Option<Seq<char>>)
    ensures
        forall|j: int| 0 <= j < kexp_scan(ms, day).len() ==> is_kexp_event(#[trigger] kexp_scan(ms, day)[j]),
    decreases ms.len(),
{
    if ms.len() > 0 {
        let m = ms[0];
        let rest = ms.subrange(1, ms.len() as int);
        if m.element.name == "h2"@ {
            lemma_kexp_events(rest, Some(join_spec(m.element.texts, " "@)));
            assert(kexp_scan(ms, day) == kexp_scan(rest, Some(join_spec(m.element.texts, " "@))));
        } else {
            lemma_kexp_events(rest, day);
            if m.element.name == "article"@ && m.inner.len() == 4 {
                let title = or_default(first_text(m.inner[0]), "Unknown Event"@);
                if title.len() == 0 || title == "Unknown Event"@ {
                    assert(kexp_scan(ms, day) == kexp_scan(rest, day));
                } else {
                    let f = kexp_fields(title, or_default(day, Seq::empty()), or_default(first_text(m.inner[1]), Seq::empty()),
                        or_default(first_text(m.inner[2]), "KEXP Studio"@), or_default(first_text(m.inner[3]), Seq::empty()));
                    assert(is_kexp_event(f));
                    let all = kexp_scan(ms, day);
                    assert(all == seq![f] + kexp_scan(rest, day));
                    assert forall|j: int| 0 <= j < all.len() implies is_kexp_event(#[trigger] all[j]) by {
                        if j > 0 {
                            assert(all[j] == kexp_scan(rest, day)[j - 1]);
                        }
                    }
                }
            } else {
                assert(kexp_scan(ms, day) == kexp_scan(rest, day));
            }
        }
    }
}

} // verus!
