//! Wix calendar payloads: an `events` array, or arrays of events by day
//! under `eventsByDates`.

use crate::json::{entry_keys, find_entry, find_key, json_get, json_of_bytes, json_str, parse_json_bytes, set_key, Json};
use crate::parser::{reversed, same_origin, ParsedRecord, WixCalendarV1Parser};
use crate::text::owned;
use vstd::prelude::*;
use vstd::string::*;

verus! {

/// `r` is `ev` with `event_day` set to `day`: an object gets the key (or
/// its value replaced), `null` becomes an object of that key alone.
pub open spec fn with_event_day(ev: Json, day: Seq<char>, r: Json) -> bool {
    match ev {
        Json::Object(es) => match r {
            Json::Object(rs) => {
                &&& entry_keys(rs@) == (if find_key(es@, "event_day"@) is Some {
                    entry_keys(es@)
                } else {
                    entry_keys(es@).push("event_day"@)
                })
                &&& json_str(json_get(r, "event_day"@)) == Some(day)
                &&& forall|k: Seq<char>| k != "event_day"@ ==> #[trigger] json_get(r, k) == json_get(ev, k)
            },
            _ => false,
        },
        Json::Null => match r {
            Json::Object(rs) => rs@.len() == 1 && rs@[0].0@ == "event_day"@ && json_str(Some(rs@[0].1)) == Some(day),
            _ => false,
        },
        _ => false,
    }
}

/// The events under `eventsByDates`, each with its day, in order.
pub open spec fn dated_events(days: Seq<(String, Json)>) -> Seq<(Seq<char>, Json)>
    decreases days.len(),
{
    if days.len() == 0 {
        Seq::empty()
    } else {
        let prev = dated_events(days.drop_last());
        match days.last().1 {
            Json::Array(items) => prev + items@.map_values(|ev: Json| (days.last().0@, ev)),
            _ => prev,
        }
    }
}

/// The document the parser falls back to: neither an `events` array nor an
/// `eventsByDates` object.
pub open spec fn wix_fallback(doc: Json) -> bool {
    !(json_get(doc, "events"@) matches Some(Json::Array(_))) && !(json_get(doc, "eventsByDates"@) matches Some(Json::Object(_)))
}

/// `out` holds, in order, the records of the dated events `d`.
pub open spec fn dated_records(out: Seq<ParsedRecord>, d: Seq<(Seq<char>, Json)>) -> bool {
    &&& out.len() == d.len()
    &&& forall|i: int| 0 <= i < d.len() ==> (#[trigger] out[i]).record_path@ == "$.eventsByDates."@ + d[i].0 + "[*]"@
        && with_event_day(d[i].1, d[i].0, out[i].record)
}

/// Every dated event is an object or `null` (any other value cannot take
/// the `event_day` key).
pub open spec fn dated_events_settable(days: Seq<(String, Json)>) -> bool {
    forall|i: int| 0 <= i < dated_events(days).len() ==> (#[trigger] dated_events(days)[i].1 is Object
        || dated_events(days)[i].1 is Null)
}

proof fn lemma_dated_events_prefix(days: Seq<(String, Json)>, k: int)
    requires
        0 <= k < days.len(),
    ensures
        dated_events(days.subrange(0, k + 1)) == dated_events(days.subrange(0, k)) + (match days[k].1 {
            Json::Array(items) => items@.map_values(|ev: Json| (days[k].0@, ev)),
            _ => Seq::empty(),
        }),
{
    let p = days.subrange(0, k + 1);
    assert(p.drop_last() =~= days.subrange(0, k));
    assert(p.last() == days[k]);
    match days[k].1 {
        Json::Array(items) => {},
        _ => {
            assert(dated_events(days.subrange(0, k)) + Seq::<(Seq<char>, Json)>::empty() =~= dated_events(
                days.subrange(0, k),
            ));
        },
    }
}

proof fn lemma_dated_events_len_mono(days: Seq<(String, Json)>, k: int)
    requires
        0 <= k <= days.len(),
    ensures
        dated_events(days.subrange(0, k)).len() <= dated_events(days).len(),
        forall|i: int| 0 <= i < dated_events(days.subrange(0, k)).len() ==> #[trigger] dated_events(days.subrange(0, k))[i]
            == dated_events(days)[i],
    decreases days.len() - k,
{
    if k < days.len() {
        lemma_dated_events_prefix(days, k);
        lemma_dated_events_len_mono(days, k + 1);
        let a = dated_events(days.subrange(0, k));
        let b = dated_events(days.subrange(0, k + 1));
        assert forall|i: int| 0 <= i < a.len() implies #[trigger] a[i] == dated_events(days)[i] by {
            assert(b[i] == a[i]);
        }
    } else {
        assert(days.subrange(0, k) =~= days);
    }
}

/// `ev` with `event_day` set to `day`.
fn set_event_day(ev: Json, day: &String) -> (r: Json)
    requires
        ev is Object || ev is Null,
    ensures
        with_event_day(ev, day@, r),
{
    proof {
        reveal_strlit("event_day");
    }
    match ev {
        Json::Object(es) => {
            let ghost old_es = es@;
            let mut es = es;
            set_key(&mut es, "event_day", Json::Str(day.clone()));
            let r = Json::Object(es);
            proof {
                let ev0 = Json::Object(es);
                assert forall|k: Seq<char>| k != "event_day"@ implies #[trigger] json_get(r, k) == json_get(ev, k) by {
                    let fk = find_key(old_es, k);
                    if let Some(i) = fk {
                        crate::json::lemma_find_key(old_es, k);
                        assert(old_es[i].0@ == k);
                    }
                }
            }
            r
        },
        _ => {
            let mut es: Vec<(String, Json)> = Vec::new();
            es.push((owned("event_day"), Json::Str(day.clone())));
            Json::Object(es)
        },
    }
}

/// Every dated event of a document can take its `event_day` (the document
/// has an `events` array, or no `eventsByDates` object, or only objects and
/// `null` in it).
pub open spec fn wix_settable(doc: Json) -> bool {
    !(json_get(doc, "events"@) matches Some(Json::Array(_))) ==> (json_get(doc, "eventsByDates"@) matches Some(Json::Object(days))
        ==> dated_events_settable(days@))
}

/// The records `r` of a Wix calendar document: each item of an `events`
/// array; else each event of each day under `eventsByDates` with its day;
/// else the whole document.
pub open spec fn wix_parsed(r: Seq<ParsedRecord>, doc: Json, source_id: Seq<char>, envelope_id: Seq<char>, payload_ref: Seq<char>) -> bool {
    &&& forall|i: int| 0 <= i < r.len() ==> same_origin(#[trigger] r[i], source_id, envelope_id, payload_ref)
    &&& json_get(doc, "events"@) matches Some(Json::Array(items)) ==> r.len() == items@.len() && forall|i: int|
        0 <= i < items@.len() ==> (#[trigger] r[i]).record_path@ == "$.events[*]"@ && r[i].record == items@[i]
    &&& !(json_get(doc, "events"@) matches Some(Json::Array(_))) ==> (json_get(doc, "eventsByDates"@) matches Some(
        Json::Object(days),
    ) ==> dated_records(r, dated_events(days@)))
    &&& wix_fallback(doc) ==> r.len() == 1 && r[0].record_path@ == "$"@ && r[0].record == doc
}

fn days_settable(days: &Vec<(String, Json)>) -> (r: bool)
    ensures
        r == dated_events_settable(days@),
{
    let mut k: usize = 0;
    assert(days@.subrange(0, 0) =~= Seq::<(String, Json)>::empty());
    while k < days.len()
        invariant
            k <= days@.len(),
            forall|i: int| 0 <= i < dated_events(days@.subrange(0, k as int)).len() ==> (#[trigger] dated_events(days@.subrange(0, k as int))[i].1 is Object
                || dated_events(days@.subrange(0, k as int))[i].1 is Null),
        decreases days@.len() - k,
    {
        proof {
            lemma_dated_events_prefix(days@, k as int);
        }
        let ghost pre = dated_events(days@.subrange(0, k as int));
        match &days[k].1 {
            Json::Array(items) => {
                let mut j: usize = 0;
                while j < items.len()
                    invariant
                        j <= items@.len(),
                        k < days@.len(),
                        days@[k as int].1 == Json::Array(*items),
                        pre == dated_events(days@.subrange(0, k as int)),
                        dated_events(days@.subrange(0, k + 1)) == pre + items@.map_values(|ev: Json| (days@[k as int].0@, ev)),
                        forall|q: int| 0 <= q < j ==> (#[trigger] items@[q]) is Object || items@[q] is Null,
                    decreases items@.len() - j,
                {
                    match &items[j] {
                        Json::Object(_) => {},
                        Json::Null => {},
                        _ => {
                            proof {
                                lemma_dated_events_len_mono(days@, k + 1);
                                let idx = pre.len() + j;
                                let full = dated_events(days@.subrange(0, k + 1));
                                assert(full == pre + items@.map_values(|ev: Json| (days@[k as int].0@, ev)));
                                assert(full[idx].1 == items@[j as int]);
                                assert(dated_events(days@)[idx] == full[idx]);
                            }
                            return false;
                        },
                    }
                    j = j + 1;
                }
                proof {
                    let full = dated_events(days@.subrange(0, k + 1));
                    assert(full == pre + items@.map_values(|ev: Json| (days@[k as int].0@, ev)));
                    assert forall|i: int| 0 <= i < full.len() implies (#[trigger] full[i].1 is Object || full[i].1 is Null) by {
                        if i >= pre.len() {
                            assert(full[i].1 == items@[i - pre.len()]);
                        } else {
                            assert(full[i] == pre[i]);
                        }
                    }
                }
            },
            _ => {
                proof {
                    let full = dated_events(days@.subrange(0, k + 1));
                    assert(full =~= pre);
                }
            },
        }
        k = k + 1;
    }
    assert(days@.subrange(0, days@.len() as int) =~= days@);
    true
}

/// Whether every dated event of the document can take its `event_day`.
pub fn wix_document_settable(doc: &Json) -> (r: bool)
    ensures
        r == wix_settable(*doc),
{
    match doc.get("events") {
        Some(Json::Array(_)) => return true,
        _ => {},
    }
    match doc.get("eventsByDates") {
        Some(Json::Object(days)) => days_settable(days),
        _ => true,
    }
}

impl WixCalendarV1Parser {
    /// The records of a payload: its bytes read as JSON, an error with the
    /// JSON parser's message when they are not; else those of the document.
    pub fn parse(&self, bytes: &[u8]) -> (r: Result<Vec<ParsedRecord>, String>)
        requires
            json_of_bytes(bytes@) matches Ok(d) ==> wix_settable(d),
        ensures
            json_of_bytes(bytes@) matches Err(m) ==> (r matches Err(e) && e@ == m),
            json_of_bytes(bytes@) matches Ok(d) ==> (r matches Ok(out)
                && wix_parsed(out@, d, self.source_id@, self.envelope_id@, self.payload_ref@)),
    {
        match parse_json_bytes(bytes) {
            Err(m) => Err(m),
            Ok(d) => Ok(self.parse_document(d)),
        }
    }

    /// The records of a Wix calendar document: each item of an `events`
    /// array (path `$.events[*]`); else each event of each day under
    /// `eventsByDates`, with the day set as its `event_day` (path
    /// `$.eventsByDates.<day>[*]`); else the whole document (path `$`).
    pub fn parse_document(&self, doc: Json) -> (r: Vec<ParsedRecord>)
        requires
            !(json_get(doc, "events"@) matches Some(Json::Array(_))) ==> (json_get(doc, "eventsByDates"@) matches Some(
                Json::Object(days),
            ) ==> dated_events_settable(days@)),
        ensures
            forall|i: int| 0 <= i < r@.len() ==> same_origin(#[trigger] r@[i], self.source_id@, self.envelope_id@, self.payload_ref@),
            json_get(doc, "events"@) matches Some(Json::Array(items)) ==> r@.len() == items@.len() && forall|i: int|
                0 <= i < items@.len() ==> (#[trigger] r@[i]).record_path@ == "$.events[*]"@ && r@[i].record == items@[i],
            !(json_get(doc, "events"@) matches Some(Json::Array(_))) ==> (json_get(doc, "eventsByDates"@) matches Some(
                Json::Object(days),
            ) ==> dated_records(r@, dated_events(days@))),
            wix_fallback(doc) ==> r@.len() == 1 && r@[0].record_path@ == "$"@ && r@[0].record == doc,
            wix_parsed(r@, doc, self.source_id@, self.envelope_id@, self.payload_ref@),
    {
        let ghost d0 = doc;
        let events_case = match doc.get("events") {
            Some(Json::Array(_)) => true,
            _ => false,
        };
        let dates_case = match doc.get("eventsByDates") {
            Some(Json::Object(_)) => true,
            _ => false,
        };
        let mut out: Vec<ParsedRecord> = Vec::new();
        if events_case {
            if let Json::Object(mut entries) = doc {
                if let Some(i) = find_entry(&entries, "events") {
                    let (_, v) = entries.remove(i);
                    if let Json::Array(items) = v {
                        let ghost all = items@;
                        let n = items.len();
                        let mut rev = reversed(items);
                        let mut k: usize = 0;
                        while rev.len() > 0
                            invariant
                                k + rev@.len() == n,
                                n == all.len(),
                                rev@ == all.subrange(k as int, n as int).reverse(),
                                out@.len() == k,
                                forall|j: int| 0 <= j < k ==> same_origin(#[trigger] out@[j], self.source_id@, self.envelope_id@, self.payload_ref@)
                                    && out@[j].record_path@ == "$.events[*]"@ && out@[j].record == all[j],
                            decreases rev@.len(),
                        {
                            let ghost before = rev@;
                            let ev = rev.pop().unwrap();
                            assert(ev == all[k as int]);
                            assert(rev@ =~= all.subrange(k + 1, n as int).reverse());
                            out.push(ParsedRecord {
                                source_id: self.source_id.clone(),
                                envelope_id: self.envelope_id.clone(),
                                payload_ref: self.payload_ref.clone(),
                                record_path: owned("$.events[*]"),
                                record: ev,
                            });
                            k = k + 1;
                        }
                    }
                }
            }
            return out;
        }
        if dates_case {
            if let Json::Object(mut entries) = doc {
                if let Some(i) = find_entry(&entries, "eventsByDates") {
                    let (_, v) = entries.remove(i);
                    if let Json::Object(days) = v {
                        let ghost all_days = days@;
                        let ghost d = dated_events(all_days);
                        let nd = days.len();
                        let mut rev_days = reversed(days);
                        let mut k: usize = 0;
                        while rev_days.len() > 0
                            invariant
                                k + rev_days@.len() == nd,
                                nd == all_days.len(),
                                d == dated_events(all_days),
                                dated_events_settable(all_days),
                                rev_days@ == all_days.subrange(k as int, nd as int).reverse(),
                                forall|j: int| 0 <= j < out@.len() ==> same_origin(#[trigger] out@[j], self.source_id@, self.envelope_id@, self.payload_ref@),
                                dated_records(out@, dated_events(all_days.subrange(0, k as int))),
                            decreases rev_days@.len(),
                        {
                            let (day, val) = rev_days.pop().unwrap();
                            assert((day, val) == all_days[k as int]);
                            assert(rev_days@ =~= all_days.subrange(k + 1, nd as int).reverse());
                            proof {
                                lemma_dated_events_prefix(all_days, k as int);
                                lemma_dated_events_len_mono(all_days, k + 1);
                            }
                            let ghost pre = dated_events(all_days.subrange(0, k as int));
                            if let Json::Array(items) = val {
                                let ghost all_items = items@;
                                let ni = items.len();
                                let mut path = owned("$.eventsByDates.");
                                path.append(day.as_str());
                                path.append("[*]");
                                let mut rev = reversed(items);
                                let mut m: usize = 0;
                                while rev.len() > 0
                                    invariant
                                        m + rev@.len() == ni,
                                        ni == all_items.len(),
                                        rev@ == all_items.subrange(m as int, ni as int).reverse(),
                                        path@ == "$.eventsByDates."@ + day@ + "[*]"@,
                                        dated_events(all_days.subrange(0, k + 1)) == pre + all_items.map_values(|ev: Json| (day@, ev)),
                                        forall|j: int| 0 <= j < dated_events(all_days.subrange(0, k + 1)).len() ==> #[trigger] dated_events(all_days.subrange(0, k + 1))[j] == d[j],
                                        dated_events(all_days.subrange(0, k + 1)).len() <= d.len(),
                                        dated_events_settable(all_days),
                                        d == dated_events(all_days),
                                        forall|j: int| 0 <= j < out@.len() ==> same_origin(#[trigger] out@[j], self.source_id@, self.envelope_id@, self.payload_ref@),
                                        dated_records(out@, pre + all_items.subrange(0, m as int).map_values(|ev: Json| (day@, ev))),
                                    decreases rev@.len(),
                                {
                                    let ev = rev.pop().unwrap();
                                    assert(ev == all_items[m as int]);
                                    assert(rev@ =~= all_items.subrange(m + 1, ni as int).reverse());
                                    let ghost idx = pre.len() + m;
                                    assert(dated_events(all_days.subrange(0, k + 1))[idx] == (day@, ev));
                                    assert(idx < dated_events(all_days.subrange(0, k + 1)).len());
                                    assert(idx < d.len());
                                    assert(d[idx] == (day@, ev));
                                    assert(dated_events(all_days)[idx].1 is Object || dated_events(all_days)[idx].1 is Null);
                                    assert(ev is Object || ev is Null);
                                    let rec = set_event_day(ev, &day);
                                    let ghost before = out@;
                                    out.push(ParsedRecord {
                                        source_id: self.source_id.clone(),
                                        envelope_id: self.envelope_id.clone(),
                                        payload_ref: self.payload_ref.clone(),
                                        record_path: path.clone(),
                                        record: rec,
                                    });
                                    assert(pre + all_items.subrange(0, m + 1).map_values(|ev: Json| (day@, ev))
                                        =~= (pre + all_items.subrange(0, m as int).map_values(|ev: Json| (day@, ev))).push((day@, ev)));
                                    m = m + 1;
                                }
                                assert(all_items.subrange(0, ni as int) =~= all_items);
                            } else {
                                assert(dated_events(all_days.subrange(0, k + 1)) =~= pre);
                            }
                            k = k + 1;
                        }
                        assert(all_days.subrange(0, nd as int) =~= all_days);
                    }
                }
            }
            return out;
        }
        out.push(ParsedRecord {
            source_id: self.source_id.clone(),
            envelope_id: self.envelope_id.clone(),
            payload_ref: self.payload_ref.clone(),
            record_path: owned("$"),
            record: doc,
        });
        out
    }
}

} // verus!
