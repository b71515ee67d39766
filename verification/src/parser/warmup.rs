//! Wix pages that embed their warmup JSON in a script tag: the events of
//! each widget of each app.

use crate::html::{concat_spec, html_select, html_select_of, match_view, text_of, HtmlMatch, HtmlMatchView};
use crate::json::{json_get, json_of_text, parse_json, Json};
use crate::metrics::views_of;
use crate::parser::kexp::html_len_fields;
use crate::parser::{html_len_record, object_is, records_are, reversed, same_origin, FieldValue, ParsedRecord, WixWarmupV1Parser};
use crate::text::{owned, str_eq, utf8_lossy, utf8_lossy_of};
use vstd::prelude::*;
use vstd::string::*;

verus! {

/// The selector of the warmup script.
pub open spec fn warmup_selector() -> Seq<char> {
    "script[type=\"application/json\"]#wix-warmup-data"@
}

/// The text of the first warmup script of a page, which holds its JSON.
pub open spec fn warmup_text(html: Seq<char>) -> Option<Seq<char>> {
    match html_select_of(html, warmup_selector(), Seq::empty()) {
        Some(ms) => if ms.len() > 0 { Some(concat_spec(ms[0].element.texts)) } else { None },
        None => None,
    }
}

/// The text of the page's warmup script, if it has one.
pub fn warmup_json_text(html: &str) -> (r: Option<String>)
    ensures
        crate::text::opt_view(r) == warmup_text(html@),
{
    let inner: Vec<String> = Vec::new();
    assert(views_of(inner@) =~= Seq::<Seq<char>>::empty());
    match html_select(html, "script[type=\"application/json\"]#wix-warmup-data", &inner) {
        Some(ms) => if ms.len() > 0 {
            Some(text_of(&ms[0].element))
        } else {
            None
        },
        None => None,
    }
}

/// Whether `k` starts with `widget`.
pub open spec fn is_widget_key(k: Seq<char>) -> bool {
    k.len() >= 6 && k.subrange(0, 6) == "widget"@
}

/// The events of one widget: the array at `events.events`.
pub open spec fn widget_events(w: Json) -> Seq<Json> {
    match json_get(w, "events"@) {
        Some(e) => match json_get(e, "events"@) {
            Some(Json::Array(items)) => items@,
            _ => Seq::empty(),
        },
        None => Seq::empty(),
    }
}

/// The events of the widgets of one app, each with its widget key.
pub open spec fn app_events(widgets: Seq<(String, Json)>) -> Seq<(Seq<char>, Json)>
    decreases widgets.len(),
{
    if widgets.len() == 0 {
        Seq::empty()
    } else {
        let prev = app_events(widgets.drop_last());
        let (k, w) = widgets.last();
        if is_widget_key(k@) {
            prev + widget_events(w).map_values(|ev: Json| (k@, ev))
        } else {
            prev
        }
    }
}

/// The events of all apps.
pub open spec fn apps_events(apps: Seq<(String, Json)>) -> Seq<(Seq<char>, Json)>
    decreases apps.len(),
{
    if apps.len() == 0 {
        Seq::empty()
    } else {
        let prev = apps_events(apps.drop_last());
        match apps.last().1 {
            Json::Object(widgets) => prev + app_events(widgets@),
            _ => prev,
        }
    }
}

/// The events of a warmup document.
pub open spec fn warmup_events(data: Json) -> Seq<(Seq<char>, Json)> {
    match json_get(data, "appsWarmupData"@) {
        Some(Json::Object(apps)) => apps_events(apps@),
        _ => Seq::empty(),
    }
}

/// The events of a widget, taken out of it.
fn take_widget_events(w: Json) -> (r: Vec<Json>)
    ensures
        r@ == widget_events(w),
{
    if let Json::Object(mut es) = w {
        if let Some(i) = crate::json::find_entry(&es, "events") {
            let (_, e) = es.remove(i);
            if let Json::Object(mut es2) = e {
                if let Some(j) = crate::json::find_entry(&es2, "events") {
                    let (_, a) = es2.remove(j);
                    if let Json::Array(items) = a {
                        return items;
                    }
                }
            }
        }
    }
    Vec::new()
}

/// Whether `k` starts with `widget`.
fn widget_key(k: &str) -> (r: bool)
    ensures
        r == is_widget_key(k@),
{
    let cs = crate::text::chars_of(k);
    proof {
        reveal_strlit("widget");
    }
    if cs.len() < 6 {
        return false;
    }
    let ws = crate::text::chars_of("widget");
    let mut i: usize = 0;
    while i < 6
        invariant
            cs@ == k@,
            ws@ == "widget"@,
            ws@.len() == 6,
            cs@.len() >= 6,
            i <= 6,
            forall|j: int| 0 <= j < i ==> cs@[j] == ws@[j],
        decreases 6 - i,
    {
        if cs[i] != ws[i] {
            assert(k@.subrange(0, 6)[i as int] != "widget"@[i as int]);
            return false;
        }
        i = i + 1;
    }
    assert(k@.subrange(0, 6) =~= "widget"@);
    true
}

proof fn lemma_app_events_prefix(ws: Seq<(String, Json)>, k: int)
    requires
        0 <= k < ws.len(),
    ensures
        app_events(ws.subrange(0, k + 1)) == app_events(ws.subrange(0, k)) + (if is_widget_key(ws[k].0@) {
            widget_events(ws[k].1).map_values(|ev: Json| (ws[k].0@, ev))
        } else {
            Seq::empty()
        }),
{
    let p = ws.subrange(0, k + 1);
    assert(p.drop_last() =~= ws.subrange(0, k));
    assert(p.last() == ws[k]);
    if !is_widget_key(ws[k].0@) {
        assert(app_events(ws.subrange(0, k)) + Seq::<(Seq<char>, Json)>::empty() =~= app_events(ws.subrange(0, k)));
    }
}

proof fn lemma_apps_events_prefix(apps: Seq<(String, Json)>, k: int)
    requires
        0 <= k < apps.len(),
    ensures
        apps_events(apps.subrange(0, k + 1)) == apps_events(apps.subrange(0, k)) + (match apps[k].1 {
            Json::Object(widgets) => app_events(widgets@),
            _ => Seq::empty(),
        }),
{
    let p = apps.subrange(0, k + 1);
    assert(p.drop_last() =~= apps.subrange(0, k));
    assert(p.last() == apps[k]);
    match apps[k].1 {
        Json::Object(widgets) => {},
        _ => {
            assert(apps_events(apps.subrange(0, k)) + Seq::<(Seq<char>, Json)>::empty() =~= apps_events(apps.subrange(0, k)));
        },
    }
}

/// The records `out` are, in order, the events `evs`, each at the path of
/// its widget.
pub open spec fn warmup_records(out: Seq<ParsedRecord>, evs: Seq<(Seq<char>, Json)>) -> bool {
    out.len() == evs.len() && forall|i: int| 0 <= i < evs.len() ==> (#[trigger] out[i]).record_path@
        == "$.appsWarmupData.*."@ + evs[i].0 + ".events.events[*]"@ && out[i].record == evs[i].1
}

/// The records `r` of a page whose warmup script's JSON is `data`.
pub open spec fn warmup_parsed(r: Seq<ParsedRecord>, html: Seq<char>, data: Option<Json>, source_id: Seq<char>, envelope_id: Seq<char>,
    payload_ref: Seq<char>) -> bool {
    &&& forall|i: int| 0 <= i < r.len() ==> same_origin(#[trigger] r[i], source_id, envelope_id, payload_ref)
    &&& match data {
        Some(d) => if warmup_events(d).len() > 0 {
            warmup_records(r, warmup_events(d))
        } else {
            records_are(r, "html"@, seq![html_len_record(vstd::utf8::encode_utf8(html).len())])
        },
        None => records_are(r, "html"@, seq![html_len_record(vstd::utf8::encode_utf8(html).len())]),
    }
}

impl WixWarmupV1Parser {
    /// The records of a payload: its bytes read as UTF-8 (invalid sequences
    /// replaced); when the page has a warmup script, its text read as JSON
    /// (an error with the JSON parser's message when it is not) and the
    /// records of the page with that data; else those of the page alone.
    pub fn parse(&self, bytes: &[u8]) -> (r: Result<Vec<ParsedRecord>, String>)
        ensures
            ({
                let page = utf8_lossy_of(bytes@);
                match warmup_text(page) {
                    Some(t) => match json_of_text(t) {
                        Err(m) => r matches Err(e) && e@ == m,
                        Ok(d) => r matches Ok(out)
                            && warmup_parsed(out@, page, Some(d), self.source_id@, self.envelope_id@, self.payload_ref@),
                    },
                    None => r matches Ok(out)
                        && warmup_parsed(out@, page, None, self.source_id@, self.envelope_id@, self.payload_ref@),
                }
            }),
    {
        let page = utf8_lossy(bytes);
        match warmup_json_text(page.as_str()) {
            Some(t) => match parse_json(t.as_str()) {
                Err(m) => Err(m),
                Ok(d) => Ok(self.parse_warmup(page.as_str(), Some(d))),
            },
            None => Ok(self.parse_warmup(page.as_str(), None)),
        }
    }

    /// The records of a page whose warmup script's JSON is `data`: every
    /// event of every widget of every app; the page's length (path `html`)
    /// when there is none.
    pub fn parse_warmup(&self, html: &str, data: Option<Json>) -> (r: Vec<ParsedRecord>)
        ensures
            forall|i: int| 0 <= i < r@.len() ==> same_origin(#[trigger] r@[i], self.source_id@, self.envelope_id@, self.payload_ref@),
            match data {
                Some(d) => if warmup_events(d).len() > 0 {
                    warmup_records(r@, warmup_events(d))
                } else {
                    records_are(r@, "html"@, seq![html_len_record(vstd::utf8::encode_utf8(html@).len())])
                },
                None => records_are(r@, "html"@, seq![html_len_record(vstd::utf8::encode_utf8(html@).len())]),
            },
            warmup_parsed(r@, html@, data, self.source_id@, self.envelope_id@, self.payload_ref@),
    {
        let mut out: Vec<ParsedRecord> = Vec::new();
        let ghost d0 = data;
        if let Some(Json::Object(mut entries)) = data {
            if let Some(i) = crate::json::find_entry(&entries, "appsWarmupData") {
                let (_, v) = entries.remove(i);
                if let Json::Object(apps) = v {
                    let ghost all_apps = apps@;
                    let na = apps.len();
                    let mut rev_apps = reversed(apps);
                    let mut a: usize = 0;
                    while rev_apps.len() > 0
                        invariant
                            a + rev_apps@.len() == na,
                            na == all_apps.len(),
                            rev_apps@ == all_apps.subrange(a as int, na as int).reverse(),
                            forall|j: int| 0 <= j < out@.len() ==> same_origin(#[trigger] out@[j], self.source_id@, self.envelope_id@, self.payload_ref@),
                            warmup_records(out@, apps_events(all_apps.subrange(0, a as int))),
                        decreases rev_apps@.len(),
                    {
                        let (app_key, app_val) = rev_apps.pop().unwrap();
                        assert((app_key, app_val) == all_apps[a as int]);
                        assert(rev_apps@ =~= all_apps.subrange(a + 1, na as int).reverse());
                        proof {
                            lemma_apps_events_prefix(all_apps, a as int);
                        }
                        let ghost pre = apps_events(all_apps.subrange(0, a as int));
                        if let Json::Object(widgets) = app_val {
                            let ghost all_w = widgets@;
                            let nw = widgets.len();
                            let mut rev_w = reversed(widgets);
                            let mut b: usize = 0;
                            while rev_w.len() > 0
                                invariant
                                    b + rev_w@.len() == nw,
                                    nw == all_w.len(),
                                    rev_w@ == all_w.subrange(b as int, nw as int).reverse(),
                                    forall|j: int| 0 <= j < out@.len() ==> same_origin(#[trigger] out@[j], self.source_id@, self.envelope_id@, self.payload_ref@),
                                    warmup_records(out@, pre + app_events(all_w.subrange(0, b as int))),
                                decreases rev_w@.len(),
                            {
                                let (wk, wv) = rev_w.pop().unwrap();
                                assert((wk, wv) == all_w[b as int]);
                                assert(rev_w@ =~= all_w.subrange(b + 1, nw as int).reverse());
                                proof {
                                    lemma_app_events_prefix(all_w, b as int);
                                }
                                let ghost pre2 = pre + app_events(all_w.subrange(0, b as int));
                                if widget_key(wk.as_str()) {
                                    let ghost wve = widget_events(wv);
                                    let events = take_widget_events(wv);
                                    let mut path = owned("$.appsWarmupData.*.");
                                    path.append(wk.as_str());
                                    path.append(".events.events[*]");
                                    let ne = events.len();
                                    let mut rev_e = reversed(events);
                                    let mut c: usize = 0;
                                    while rev_e.len() > 0
                                        invariant
                                            c + rev_e@.len() == ne,
                                            ne == wve.len(),
                                            rev_e@ == wve.subrange(c as int, ne as int).reverse(),
                                            path@ == "$.appsWarmupData.*."@ + wk@ + ".events.events[*]"@,
                                            forall|j: int| 0 <= j < out@.len() ==> same_origin(#[trigger] out@[j], self.source_id@, self.envelope_id@, self.payload_ref@),
                                            warmup_records(out@, pre2 + wve.subrange(0, c as int).map_values(|ev: Json| (wk@, ev))),
                                        decreases rev_e@.len(),
                                    {
                                        let ev = rev_e.pop().unwrap();
                                        assert(ev == wve[c as int]);
                                        assert(rev_e@ =~= wve.subrange(c + 1, ne as int).reverse());
                                        out.push(ParsedRecord {
                                            source_id: self.source_id.clone(),
                                            envelope_id: self.envelope_id.clone(),
                                            payload_ref: self.payload_ref.clone(),
                                            record_path: path.clone(),
                                            record: ev,
                                        });
                                        assert(pre2 + wve.subrange(0, c + 1).map_values(|ev: Json| (wk@, ev))
                                            =~= (pre2 + wve.subrange(0, c as int).map_values(|ev: Json| (wk@, ev))).push((wk@, ev)));
                                        c = c + 1;
                                    }
                                    assert(wve.subrange(0, ne as int) =~= wve);
                                    assert(pre + app_events(all_w.subrange(0, b + 1)) =~= pre2 + wve.map_values(|ev: Json| (wk@, ev)));
                                } else {
                                    assert(pre + app_events(all_w.subrange(0, b + 1)) =~= pre2);
                                }
                                b = b + 1;
                            }
                            assert(all_w.subrange(0, nw as int) =~= all_w);
                        } else {
                            assert(apps_events(all_apps.subrange(0, a + 1)) =~= pre);
                        }
                        a = a + 1;
                    }
                    assert(all_apps.subrange(0, na as int) =~= all_apps);
                }
            }
        }
        if out.len() == 0 {
            let rec = html_len_fields(html);
            out.push(ParsedRecord {
                source_id: self.source_id.clone(),
                envelope_id: self.envelope_id.clone(),
                payload_ref: self.payload_ref.clone(),
                record_path: owned("html"),
                record: rec,
            });
        }
        out
    }
}

} // verus!
