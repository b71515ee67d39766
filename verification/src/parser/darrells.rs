//! Darrell's Tavern schedule pages: a date header, then paragraphs naming
//! that day's performers.

use crate::calendar::{date_text, date_text_of};
use crate::domain::CalendarDate;
use crate::html::{concat_spec, element_view, html_children, html_children_of, match_view, text_of, HtmlElement, HtmlElementView, HtmlMatch, HtmlMatchView};
use crate::json::Json;
use crate::metrics::views_of;
use crate::parser::barboza::{elem_text, Fields};
use crate::parser::kexp::html_len_fields;
use crate::parser::{html_len_record, object_is, push_text, records_are, same_origin, DarrellsHtmlV1Parser, FieldValue, ParsedRecord};
use crate::text::{
    contains_spec, contains_str, non_empty_spec, owned, parse_u32, parse_u32_spec, split_chars, split_spec, split_whitespace, str_eq,
    trim_spec, trim_str, words_spec,
};
use vstd::prelude::*;
use vstd::string::*;

verus! {

/// The text of the day a header such as `MUSIC 7.12` names in `year`, as
/// chrono writes the date: the second word split at `.` into month and day.
pub open spec fn header_day(text: Seq<char>, year: i32) -> Option<Seq<char>> {
    let parts = words_spec(text);
    if parts.len() < 2 {
        None
    } else {
        let comps = split_spec(parts[1], '.');
        if comps.len() != 2 {
            None
        } else {
            match (parse_u32_spec(comps[0]), parse_u32_spec(comps[1])) {
                (Some(m), Some(d)) => date_text_of(year, m, d),
                _ => None,
            }
        }
    }
}

/// Whether one of `names` occurs in `line`.
pub open spec fn names_in(names: Seq<Seq<char>>, line: Seq<char>) -> bool {
    exists|i: int| 0 <= i < names.len() && contains_spec(line, #[trigger] names[i])
}

/// The non-empty trimmed texts of the links, in order.
pub open spec fn link_names(links: Seq<HtmlElementView>) -> Seq<Seq<char>>
    decreases links.len(),
{
    if links.len() == 0 {
        Seq::empty()
    } else {
        let prev = link_names(links.drop_last());
        let t = elem_text(links.last());
        if t.len() > 0 { prev.push(t) } else { prev }
    }
}

/// The performers after `names` found on `lines`: each trimmed line that is
/// not empty, holds none of the names so far, and has no `DOORS`, `SHOW`
/// or `$`.
pub open spec fn line_performers(lines: Seq<Seq<char>>, names: Seq<Seq<char>>) -> Seq<Seq<char>>
    decreases lines.len(),
{
    if lines.len() == 0 {
        names
    } else {
        let l = trim_spec(lines[0]);
        let rest = lines.subrange(1, lines.len() as int);
        if l.len() == 0 || names_in(names, l) || contains_spec(l, "DOORS"@) || contains_spec(l, "SHOW"@) || contains_spec(l, "$"@) {
            line_performers(rest, names)
        } else {
            line_performers(rest, names.push(l))
        }
    }
}

/// The performers of a paragraph: its link texts, then its other lines.
pub open spec fn performers(m: HtmlMatchView) -> Seq<Seq<char>> {
    line_performers(split_spec(concat_spec(m.element.texts), '\n'), link_names(m.inner[0]))
}

/// The record of a performer on a day.
pub open spec fn performer_fields(name: Seq<char>, day: Seq<char>) -> Fields {
    seq![("title"@, FieldValue::Text(name)), ("event_day"@, FieldValue::Text(day))]
}

/// The records of the children from `ms` on, `day` being the day of the
/// last header: each performer of each paragraph under a valid day.
pub open spec fn darrells_scan(ms: Seq<HtmlMatchView>, day: Option<Seq<char>>, year: i32) -> Seq<Fields>
    decreases ms.len(),
{
    if ms.len() == 0 {
        Seq::empty()
    } else {
        let m = ms[0];
        let rest = ms.subrange(1, ms.len() as int);
        if m.element.name == "h1"@ {
            darrells_scan(rest, header_day(concat_spec(m.element.texts), year), year)
        } else if m.element.name == "p"@ && day is Some && m.inner.len() == 1 {
            performers(m).map_values(|p: Seq<char>| performer_fields(p, day->0)) + darrells_scan(rest, day, year)
        } else {
            darrells_scan(rest, day, year)
        }
    }
}

/// The day a header names.
pub fn header_day_text(text: &str, year: i32) -> (r: Option<String>)
    ensures
        crate::text::opt_view(r) == header_day(text@, year),
{
    let parts = split_whitespace(text);
    if parts.len() < 2 {
        return None;
    }
    let cs = crate::text::chars_of(parts[1].as_str());
    let comps = split_chars(&cs, '.');
    if comps.len() != 2 {
        return None;
    }
    assert(comps@.map_values(|x: String| x@)[0] == comps@[0]@);
    assert(comps@.map_values(|x: String| x@)[1] == comps@[1]@);
    match (parse_u32(comps[0].as_str()), parse_u32(comps[1].as_str())) {
        (Some(m), Some(d)) => date_text(CalendarDate { year, month: m, day: d }),
        _ => None,
    }
}

fn any_name_in(names: &Vec<String>, line: &str) -> (r: bool)
    ensures
        r == names_in(names@.map_values(|x: String| x@), line@),
{
    let ghost nv = names@.map_values(|x: String| x@);
    let mut i: usize = 0;
    while i < names.len()
        invariant
            i <= names@.len(),
            nv == names@.map_values(|x: String| x@),
            forall|j: int| 0 <= j < i ==> !contains_spec(line@, #[trigger] nv[j]),
        decreases names@.len() - i,
    {
        if contains_str(line, names[i].as_str()) {
            assert(contains_spec(line@, nv[i as int]));
            return true;
        }
        i = i + 1;
    }
    false
}

/// The performers of a paragraph.
fn performers_of(m: &HtmlMatch) -> (r: Vec<String>)
    requires
        m.inner@.len() == 1,
    ensures
        r@.map_values(|x: String| x@) == performers(match_view(*m)),
{
    let ghost mv = match_view(*m);
    let links = &m.inner[0];
    assert(mv.inner[0] == links@.map_values(|e: HtmlElement| element_view(e)));
    let ghost lv = links@.map_values(|e: HtmlElement| element_view(e));
    let mut names: Vec<String> = Vec::new();
    let mut i: usize = 0;
    while i < links.len()
        invariant
            i <= links@.len(),
            lv == links@.map_values(|e: HtmlElement| element_view(e)),
            names@.map_values(|x: String| x@) == link_names(lv.subrange(0, i as int)),
        decreases links@.len() - i,
    {
        let ghost pre = lv.subrange(0, i + 1);
        assert(pre.drop_last() =~= lv.subrange(0, i as int));
        let ghost before = names@.map_values(|x: String| x@);
        let t = text_of(&links[i]);
        let name = trim_str(t.as_str());
        if name.unicode_len() > 0 {
            names.push(name);
            assert(names@.map_values(|x: String| x@) =~= before.push(elem_text(pre.last())));
        }
        i = i + 1;
    }
    assert(lv.subrange(0, links@.len() as int) =~= lv);
    let text = text_of(&m.element);
    let tc = crate::text::chars_of(text.as_str());
    let lines = split_chars(&tc, '\n');
    let ghost ls = lines@.map_values(|x: String| x@);
    let ghost total = line_performers(ls, link_names(lv));
    let mut k: usize = 0;
    assert(ls.subrange(0, ls.len() as int) =~= ls);
    proof {
        reveal_strlit("DOORS");
        reveal_strlit("SHOW");
        reveal_strlit("$");
    }
    while k < lines.len()
        invariant
            k <= lines@.len(),
            ls == lines@.map_values(|x: String| x@),
            line_performers(ls.subrange(k as int, ls.len() as int), names@.map_values(|x: String| x@)) == total,
        decreases lines@.len() - k,
    {
        let ghost rest = ls.subrange(k as int, ls.len() as int);
        assert(rest[0] == ls[k as int]);
        assert(rest.subrange(1, rest.len() as int) =~= ls.subrange(k + 1, ls.len() as int));
        let line = trim_str(lines[k].as_str());
        let skip = line.unicode_len() == 0 || any_name_in(&names, line.as_str()) || contains_str(line.as_str(), "DOORS")
            || contains_str(line.as_str(), "SHOW") || contains_str(line.as_str(), "$");
        if !skip {
            let ghost before = names@.map_values(|x: String| x@);
            names.push(line);
            assert(names@.map_values(|x: String| x@) =~= before.push(trim_spec(ls[k as int])));
        }
        k = k + 1;
    }
    assert(ls.subrange(lines@.len() as int, ls.len() as int) =~= Seq::<Seq<char>>::empty());
    names
}

/// What parsing a Darrell's Tavern page gives with dates read in `year`.
pub open spec fn darrells_parsed(r: Seq<ParsedRecord>, html: Seq<char>, year: i32) -> bool {
    match html_children_of(html, "div.entry-content"@, seq!["a"@]) {
        Some(ms) => if darrells_scan(ms, None, year).len() > 0 {
            records_are(r, "entry-content"@, darrells_scan(ms, None, year))
        } else {
            records_are(r, "html"@, seq![html_len_record(vstd::utf8::encode_utf8(html).len())])
        },
        None => records_are(r, "html"@, seq![html_len_record(vstd::utf8::encode_utf8(html).len())]),
    }
}

impl DarrellsHtmlV1Parser {
    /// The performers of a Darrell's Tavern page, dates read in the current
    /// year (UTC).
    pub fn parse(&self, html: &str) -> (r: Vec<ParsedRecord>)
        ensures
            forall|i: int| 0 <= i < r@.len() ==> same_origin(#[trigger] r@[i], self.source_id@, self.envelope_id@, self.payload_ref@),
            exists|y: i32| #[trigger] darrells_parsed(r@, html@, y),
    {
        let y = crate::calendar::utc_year();
        let r = self.parse_for_year(html, y);
        assert(darrells_parsed(r@, html@, y));
        r
    }

    /// The performers of a Darrell's Tavern page, each with the day of the
    /// header above it (path `entry-content`), dates read in `current_year`;
    /// the page's length (path `html`) when it has none.
    pub fn parse_for_year(&self, html: &str, current_year: i32) -> (r: Vec<ParsedRecord>)
        ensures
            forall|i: int| 0 <= i < r@.len() ==> same_origin(#[trigger] r@[i], self.source_id@, self.envelope_id@, self.payload_ref@),
            darrells_parsed(r@, html@, current_year),
    {
        let mut inner: Vec<String> = Vec::new();
        inner.push(owned("a"));
        assert(views_of(inner@) =~= seq!["a"@]);
        let found = html_children(html, "div.entry-content", &inner);
        let mut out: Vec<ParsedRecord> = Vec::new();
        if let Some(ms) = found {
            let ghost mv = ms@.map_values(|m: HtmlMatch| match_view(m));
            let ghost total = darrells_scan(mv, None, current_year);
            let mut day: Option<String> = None;
            let mut i: usize = 0;
            assert(mv.subrange(0, mv.len() as int) =~= mv);
            proof {
                let e0: Seq<Fields> = Seq::empty();
                assert(records_are(out@, "entry-content"@, e0));
                assert(e0 + darrells_scan(mv.subrange(0, mv.len() as int), crate::text::opt_view(day), current_year) =~= total);
            }
            while i < ms.len()
                invariant
                    i <= ms@.len(),
                    mv == ms@.map_values(|m: HtmlMatch| match_view(m)),
                    forall|j: int| 0 <= j < out@.len() ==> same_origin(#[trigger] out@[j], self.source_id@, self.envelope_id@, self.payload_ref@),
                    exists|done: Seq<Fields>| records_are(out@, "entry-content"@, done)
                        && done + darrells_scan(mv.subrange(i as int, mv.len() as int), crate::text::opt_view(day), current_year) == total,
                decreases ms@.len() - i,
            {
                let ghost done = choose|done: Seq<Fields>| records_are(out@, "entry-content"@, done)
                    && done + darrells_scan(mv.subrange(i as int, mv.len() as int), crate::text::opt_view(day), current_year) == total;
                let ghost rest = mv.subrange(i as int, mv.len() as int);
                assert(rest[0] == mv[i as int]);
                assert(rest.subrange(1, rest.len() as int) =~= mv.subrange(i + 1, mv.len() as int));
                let m = &ms[i];
                proof {
                    reveal_strlit("h1");
                    reveal_strlit("p");
                }
                if str_eq(m.element.name.as_str(), "h1") {
                    let t = text_of(&m.element);
                    day = header_day_text(t.as_str(), current_year);
                } else if str_eq(m.element.name.as_str(), "p") && day.is_some() && m.inner.len() == 1 {
                    let d = match &day {
                        Some(x) => x.clone(),
                        None => String::new(),
                    };
                    let names = performers_of(m);
                    let ghost pv = names@.map_values(|x: String| x@);
                    let ghost recs = pv.map_values(|p: Seq<char>| performer_fields(p, d@));
                    let mut k: usize = 0;
                    while k < names.len()
                        invariant
                            k <= names@.len(),
                            pv == names@.map_values(|x: String| x@),
                            recs == pv.map_values(|p: Seq<char>| performer_fields(p, d@)),
                            forall|j: int| 0 <= j < out@.len() ==> same_origin(#[trigger] out@[j], self.source_id@, self.envelope_id@, self.payload_ref@),
                            records_are(out@, "entry-content"@, done + recs.subrange(0, k as int)),
                        decreases names@.len() - k,
                    {
                        let ghost before = out@;
                        let mut entries: Vec<(String, Json)> = Vec::new();
                        let ghost e0: Fields = Seq::empty();
                        assert(object_is(Json::Object(entries), e0));
                        push_text(&mut entries, "title", names[k].clone(), Ghost(e0));
                        push_text(&mut entries, "event_day", d.clone(), Ghost(e0.push(("title"@, FieldValue::Text(pv[k as int])))));
                        proof {
                            reveal_strlit("title");
                            reveal_strlit("event_day");
                            assert(e0.push(("title"@, FieldValue::Text(pv[k as int]))).push(("event_day"@, FieldValue::Text(d@)))
                                =~= performer_fields(pv[k as int], d@));
                        }
                        out.push(ParsedRecord {
                            source_id: self.source_id.clone(),
                            envelope_id: self.envelope_id.clone(),
                            payload_ref: self.payload_ref.clone(),
                            record_path: owned("entry-content"),
                            record: Json::Object(entries),
                        });
                        proof {
                            reveal_strlit("entry-content");
                            let nd = done + recs.subrange(0, k + 1);
                            assert(nd =~= (done + recs.subrange(0, k as int)).push(recs[k as int]));
                            assert forall|j: int| 0 <= j < nd.len() implies (#[trigger] out@[j]).record_path@ == "entry-content"@
                                && object_is(out@[j].record, nd[j]) by {
                                if j < before.len() {
                                    assert(out@[j] == before[j]);
                                }
                            }
                        }
                        k = k + 1;
                    }
                    proof {
                        assert(recs.subrange(0, names@.len() as int) =~= recs);
                        let nd = done + recs;
                        assert(nd + darrells_scan(mv.subrange(i + 1, mv.len() as int), crate::text::opt_view(day), current_year)
                            =~= done + (recs + darrells_scan(mv.subrange(i + 1, mv.len() as int), crate::text::opt_view(day), current_year)));
                    }
                }
                i = i + 1;
            }
            proof {
                let done = choose|done: Seq<Fields>| records_are(out@, "entry-content"@, done)
                    && done + darrells_scan(mv.subrange(i as int, mv.len() as int), crate::text::opt_view(day), current_year) == total;
                assert(mv.subrange(i as int, mv.len() as int) =~= Seq::<HtmlMatchView>::empty());
                assert(done + Seq::<Fields>::empty() =~= done);
            }
        }
        if out.len() == 0 {
            let rec = html_len_fields(html);
            out.push(ParsedRecord {
                source_id: self.source_id.clone(),
                envelope_id: self.envelope_id.clone(),
                payload_ref: self.payload_ref.clone(),
                record_path: owned("html"),
                record: rec,
            });
        }
        out
    }
}

/// A paragraph's lines add performers after the names already found, which
/// stay in front: every line taken is non-empty and holds none of `DOORS`,
/// `SHOW` and `$`.
pub proof fn lemma_line_performers(lines: Seq<Seq<char>>, names: Seq<Seq<char>>)
    ensures
        ({
            let r = line_performers(lines, names);
            &&& r.len() >= names.len()
            &&& r.subrange(0, names.len() as int) == names
            &&& forall|j: int| names.len() <= j < r.len() ==> (#[trigger] r[j]).len() > 0 && !contains_spec(r[j], "DOORS"@)
                && !contains_spec(r[j], "SHOW"@) && !contains_spec(r[j], "$"@)
        }),
    decreases lines.len(),
{
    if lines.len() > 0 {
        let l = trim_spec(lines[0]);
        let rest = lines.subrange(1, lines.len() as int);
        if l.len() == 0 || names_in(names, l) || contains_spec(l, "DOORS"@) || contains_spec(l, "SHOW"@) || contains_spec(l, "$"@) {
            lemma_line_performers(rest, names);
        } else {
            lemma_line_performers(rest, names.push(l));
            let r = line_performers(lines, names);
            assert(r == line_performers(rest, names.push(l)));
            assert(r.subrange(0, names.len() as int + 1) == names.push(l));
            assert(r.subrange(0, names.len() as int) =~= names) by {
                assert forall|j: int| 0 <= j < names.len() implies r[j] == names[j] by {
                    assert(r.subrange(0, names.len() as int + 1)[j] == names.push(l)[j]);
                }
            }
            assert(r[names.len() as int] == l) by {
                assert(r.subrange(0, names.len() as int + 1)[names.len() as int] == names.push(l)[names.len() as int]);
            }
        }
    } else {
        assert(line_performers(lines, names).subrange(0, names.len() as int) =~= names);
    }
}

} // verus!
