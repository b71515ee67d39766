//! The web front's GraphQL exchanges: the requests it sends for events,
//! artists and venues, what it takes from the responses, and the order it
//! shows upcoming events in.

use crate::domain::CalendarDate;
use crate::json::{copy_json, json_get, json_text, write_json, Json};
use crate::metrics::views_of;
use crate::normalize::extract::{first_present, keys_view};
use crate::parser::{object_is, FieldValue};
use crate::storage::records::{day_before, day_lt};
use crate::storage::table::{in_order, row_views, sort_rows, Listed, Row};
use crate::text::{join, join_spec, owned, trim_spec, trim_str};
use vstd::prelude::*;

verus! {

/// The filters of the events page.
#[derive(Debug)]
pub struct EventFilter {
    pub venue: Option<String>,
    pub search: Option<String>,
}

/// An error reported by the GraphQL API.
#[derive(Debug)]
pub struct GraphQLError {
    pub message: String,
}

/// A GraphQL request: the query and its variables.
#[derive(Debug)]
pub struct GraphQLRequest {
    pub query: String,
    pub variables: Option<Json>,
}

/// Whether an optional filter holds more than whitespace.
pub open spec fn has_text(o: Option<String>) -> bool {
    o matches Some(s) && trim_spec(s@).len() > 0
}

/// Whether the events are filtered by search or venue.
pub open spec fn filtered(f: EventFilter) -> bool {
    has_text(f.search) || has_text(f.venue)
}

/// The fields asked of each event.
pub open spec fn event_field_list() -> Seq<Seq<char>> {
    seq![
        "id"@,
        "title"@,
        "eventDay"@,
        "startTime"@,
        "eventUrl"@,
        "description"@,
        "eventImageUrl"@,
        "venue { id name address city }"@,
        "artists { id name nameSlug bio artistImageUrl }"@,
    ]
}

/// The separator of the fields in a query.
pub open spec fn field_separator() -> Seq<char> {
    "\n                "@
}

/// The query for events: `searchEvents` when filtered, else
/// `upcomingEvents`.
pub open spec fn events_query_text(filtered: bool) -> Seq<char> {
    let fields = join_spec(event_field_list(), field_separator());
    if filtered {
        "\n            query($search: String, $venue: String) {\n                searchEvents(search: $search, venue: $venue) {\n                    "@
            + fields + "\n                }\n            }\n            "@
    } else {
        "\n            query($days: Int) {\n                upcomingEvents(days: $days) {\n                    "@ + fields
            + "\n                }\n            }\n            "@
    }
}

/// The variables of a filtered query: the search and the venue, each when
/// it holds more than whitespace.
pub open spec fn filter_variables(f: EventFilter) -> Seq<(Seq<char>, FieldValue)> {
    (if has_text(f.search) { seq![("search"@, FieldValue::Text(f.search->0@))] } else { Seq::empty() })
        + (if has_text(f.venue) { seq![("venue"@, FieldValue::Text(f.venue->0@))] } else { Seq::empty() })
}

/// Whether an optional filter holds more than whitespace.
fn filter_has_text(o: &Option<String>) -> (r: bool)
    ensures
        r == has_text(*o),
{
    match o {
        Some(s) => trim_str(s.as_str()).unicode_len() > 0,
        None => false,
    }
}

/// The request for the events of the events page: matching events when
/// filtered, else those of the coming 365 days.
pub fn events_request(filter: &EventFilter) -> (r: GraphQLRequest)
    ensures
        r.query@ == events_query_text(filtered(*filter)),
        r.variables matches Some(v) && if filtered(*filter) {
            object_is(v, filter_variables(*filter))
        } else {
            object_is(v, seq![("days"@, FieldValue::Number("365"@))])
        },
{
    let mut parts: Vec<String> = Vec::new();
    parts.push(owned("id"));
    parts.push(owned("title"));
    parts.push(owned("eventDay"));
    parts.push(owned("startTime"));
    parts.push(owned("eventUrl"));
    parts.push(owned("description"));
    parts.push(owned("eventImageUrl"));
    parts.push(owned("venue { id name address city }"));
    parts.push(owned("artists { id name nameSlug bio artistImageUrl }"));
    assert(views_of(parts@) =~= event_field_list());
    let fields = join(&parts, "\n                ");
    let has_search = filter_has_text(&filter.search);
    let has_venue = filter_has_text(&filter.venue);
    let mut query = if has_search || has_venue {
        owned("\n            query($search: String, $venue: String) {\n                searchEvents(search: $search, venue: $venue) {\n                    ")
    } else {
        owned("\n            query($days: Int) {\n                upcomingEvents(days: $days) {\n                    ")
    };
    query.append(fields.as_str());
    query.append("\n                }\n            }\n            ");
    let variables = if has_search || has_venue {
        let mut vars: Vec<(String, Json)> = Vec::new();
        let ghost f0: Seq<(Seq<char>, FieldValue)> = Seq::empty();
        match &filter.search {
            Some(s) => {
                if has_search {
                    vars.push((owned("search"), Json::Str(s.clone())));
                    proof {
                        reveal_strlit("search");
                    }
                }
            },
            None => {},
        }
        let ghost f1 = if has_text(filter.search) { seq![("search"@, FieldValue::Text(filter.search->0@))] } else { f0 };
        assert(object_is(Json::Object(vars), f1));
        match &filter.venue {
            Some(v) => {
                if has_venue {
                    let ghost before = vars@;
                    vars.push((owned("venue"), Json::Str(v.clone())));
                    proof {
                        reveal_strlit("venue");
                        let f2 = f1.push(("venue"@, FieldValue::Text(v@)));
                        assert forall|i: int| 0 <= i < f2.len() implies (#[trigger] vars@[i]).0@ == f2[i].0 && crate::parser::holds_value(
                            vars@[i].1,
                            f2[i].1,
                        ) by {
                            if i < f1.len() {
                                assert(vars@[i] == before[i]);
                            }
                        }
                        assert(f2 =~= filter_variables(*filter));
                    }
                }
            },
            None => {},
        }
        assert(object_is(Json::Object(vars), filter_variables(*filter))) by {
            if !has_venue {
                assert(f1 =~= filter_variables(*filter));
            }
        }
        Json::Object(vars)
    } else {
        let mut vars: Vec<(String, Json)> = Vec::new();
        vars.push((owned("days"), Json::Number(owned("365"))));
        proof {
            reveal_strlit("days");
            reveal_strlit("365");
        }
        Json::Object(vars)
    };
    GraphQLRequest { query, variables: Some(variables) }
}

/// The query for one artist by id.
pub open spec fn artist_query_text() -> Seq<char> {
    "\n        query($id: ID!) {\n            artist(id: $id) {\n                id\n                name\n                nameSlug\n                bio\n                artistImageUrl\n            }\n        }\n    "@
}

/// The query for one venue by id.
pub open spec fn venue_query_text() -> Seq<char> {
    "\n        query($id: ID!) {\n            venue(id: $id) {\n                id\n                name\n                address\n                city\n            }\n        }\n    "@
}

/// The variables asking for one id.
fn id_variables(id: &str) -> (r: Json)
    ensures
        object_is(r, seq![("id"@, FieldValue::Text(id@))]),
{
    let mut vars: Vec<(String, Json)> = Vec::new();
    vars.push((owned("id"), Json::Str(owned(id))));
    proof {
        reveal_strlit("id");
    }
    Json::Object(vars)
}

/// The request for the artist with id `artist_id`.
pub fn artist_request(artist_id: &str) -> (r: GraphQLRequest)
    ensures
        r.query@ == artist_query_text(),
        r.variables matches Some(v) && object_is(v, seq![("id"@, FieldValue::Text(artist_id@))]),
{
    GraphQLRequest {
        query: owned(
            "\n        query($id: ID!) {\n            artist(id: $id) {\n                id\n                name\n                nameSlug\n                bio\n                artistImageUrl\n            }\n        }\n    ",
        ),
        variables: Some(id_variables(artist_id)),
    }
}

/// The request for the venue with id `venue_id`.
pub fn venue_request(venue_id: &str) -> (r: GraphQLRequest)
    ensures
        r.query@ == venue_query_text(),
        r.variables matches Some(v) && object_is(v, seq![("id"@, FieldValue::Text(venue_id@))]),
{
    GraphQLRequest {
        query: owned(
            "\n        query($id: ID!) {\n            venue(id: $id) {\n                id\n                name\n                address\n                city\n            }\n        }\n    ",
        ),
        variables: Some(id_variables(venue_id)),
    }
}

/// The error a response reports, if it has `errors`.
pub open spec fn reported_errors(response: Json) -> Option<Seq<char>> {
    match json_get(response, "errors"@) {
        Some(e) => Some("GraphQL errors: "@ + json_text(e)),
        None => None,
    }
}

/// What the events page takes from a response: the JSON text of its
/// `searchEvents`, `upcomingEvents` or `events`, the first present.
pub open spec fn events_payload_of(response: Json) -> Result<Seq<char>, Seq<char>> {
    match reported_errors(response) {
        Some(m) => Err(m),
        None => match json_get(response, "data"@) {
            Some(d) => match first_present(d, seq!["searchEvents"@, "upcomingEvents"@, "events"@]) {
                Some(e) => Ok(json_text(e)),
                None => Err("No events field found in response"@),
            },
            None => Err("No data field found in response"@),
        },
    }
}

/// The text of the errors a response reports.
fn errors_message(response: &Json) -> (r: Option<String>)
    ensures
        crate::text::opt_view(r) == reported_errors(*response),
{
    match response.get("errors") {
        Some(e) => {
            let mut m = owned("GraphQL errors: ");
            write_json(e, &mut m);
            Some(m)
        },
        None => None,
    }
}

/// The events part of a response, or the error it gives.
pub fn events_payload(response: &Json) -> (r: Result<Json, String>)
    ensures
        match (r, events_payload_of(*response)) {
            (Ok(j), Ok(t)) => json_text(j) == t,
            (Err(m), Err(t)) => m@ == t,
            _ => false,
        },
{
    match errors_message(response) {
        Some(m) => {
            return Err(m);
        },
        None => {},
    }
    match response.get("data") {
        Some(d) => {
            let mut keys: Vec<&str> = Vec::new();
            keys.push("searchEvents");
            keys.push("upcomingEvents");
            keys.push("events");
            assert(keys_view(keys@) =~= seq!["searchEvents"@, "upcomingEvents"@, "events"@]);
            match crate::normalize::extract::first_present_of(d, &keys) {
                Some(e) => Ok(copy_json(e)),
                None => Err(owned("No events field found in response")),
            }
        },
        None => Err(owned("No data field found in response")),
    }
}

/// What a page of one artist or venue takes from a response: the JSON text
/// of `data.{key}` unless it is absent or null.
pub open spec fn item_payload_of(response: Json, key: Seq<char>) -> Result<Option<Seq<char>>, Seq<char>> {
    match reported_errors(response) {
        Some(m) => Err(m),
        None => match json_get(response, "data"@) {
            Some(d) => match json_get(d, key) {
                Some(Json::Null) => Ok(None),
                Some(v) => Ok(Some(json_text(v))),
                None => Ok(None),
            },
            None => Ok(None),
        },
    }
}

/// The `data.{key}` part of a response, none when absent or null, or the
/// error it gives.
pub fn item_payload(response: &Json, key: &str) -> (r: Result<Option<Json>, String>)
    ensures
        match (r, item_payload_of(*response, key@)) {
            (Ok(Some(j)), Ok(Some(t))) => json_text(j) == t,
            (Ok(None), Ok(None)) => true,
            (Err(m), Err(t)) => m@ == t,
            _ => false,
        },
{
    match errors_message(response) {
        Some(m) => {
            return Err(m);
        },
        None => {},
    }
    match response.get("data") {
        Some(d) => match d.get(key) {
            Some(Json::Null) => Ok(None),
            Some(v) => Ok(Some(copy_json(v))),
            None => Ok(None),
        },
        None => Ok(None),
    }
}

/// An event's day and its place in the list.
pub struct DayAt {
    pub day: CalendarDate,
    pub index: usize,
}

impl View for DayAt {
    type V = (CalendarDate, usize);

    open spec fn view(&self) -> (CalendarDate, usize) {
        (self.day, self.index)
    }
}

impl Row for DayAt {
    open spec fn id_of(v: (CalendarDate, usize)) -> Option<u128> {
        None
    }

    fn row_id(&self) -> (r: Option<u128>) {
        None
    }

    fn duplicate(&self) -> (r: DayAt) {
        DayAt { day: self.day, index: self.index }
    }
}

impl Listed for DayAt {
    /// By day, then by place in the list.
    open spec fn precedes(a: (CalendarDate, usize), b: (CalendarDate, usize)) -> bool {
        day_lt(a.0, b.0) || (a.0 == b.0 && a.1 < b.1)
    }

    fn goes_before(&self, other: &DayAt) -> (r: bool) {
        day_before(self.day, other.day) || (self.day == other.day && self.index < other.index)
    }

    proof fn lemma_precedes(a: (CalendarDate, usize), b: (CalendarDate, usize), c: (CalendarDate, usize)) {
    }
}

/// The places of the events from `today` on, by day, events of one day in
/// the order they came.
pub fn upcoming_order(days: &Vec<CalendarDate>, today: CalendarDate) -> (r: Vec<usize>)
    ensures
        r@.no_duplicates(),
        forall|i: int| 0 <= i < days@.len() ==> (r@.contains(i as usize) <==> !day_lt(days@[i], today)),
        forall|k: int| 0 <= k < r@.len() ==> r@[k] < days@.len(),
        forall|a: int, b: int| 0 <= a < b < r@.len() ==> day_lt(days@[r@[a] as int], days@[r@[b] as int]) || (
            days@[r@[a] as int] == days@[r@[b] as int] && r@[a] < r@[b]),
{
    broadcast use vstd::seq_lib::group_to_multiset_ensures, vstd::multiset::group_multiset_axioms;
    let mut kept: Vec<DayAt> = Vec::new();
    let mut i: usize = 0;
    while i < days.len()
        invariant
            i <= days@.len(),
            forall|k: int| 0 <= k < kept@.len() ==> (#[trigger] kept@[k]).index < i && kept@[k].day == days@[kept@[k].index as int]
                && !day_lt(kept@[k].day, today),
            forall|j: int| 0 <= j < i && !day_lt(days@[j], today) ==> row_views(kept@).contains((days@[j], j as usize)),
            forall|a: int, b: int| 0 <= a < b < kept@.len() ==> (#[trigger] kept@[a]).index < (#[trigger] kept@[b]).index,
        decreases days@.len() - i,
    {
        if !day_before(days[i], today) {
            let ghost before = kept@;
            kept.push(DayAt { day: days[i], index: i });
            proof {
                assert forall|j: int| 0 <= j < i + 1 && !day_lt(days@[j], today) implies row_views(kept@).contains(
                    (days@[j], j as usize),
                ) by {
                    if j < i {
                        let k = choose|k: int| 0 <= k < row_views(before).len() && row_views(before)[k] == (days@[j], j as usize);
                        assert(row_views(kept@)[k] == row_views(before)[k]);
                    } else {
                        assert(row_views(kept@)[kept@.len() - 1] == (days@[j], j as usize));
                    }
                }
            }
        }
        i = i + 1;
    }
    let ghost kv = row_views(kept@);
    assert(kv.no_duplicates()) by {
        assert forall|a: int, b: int| 0 <= a < kv.len() && 0 <= b < kv.len() && a != b implies kv[a] != kv[b] by {
            if a < b {
                assert(kept@[a].index < kept@[b].index);
            } else {
                assert(kept@[b].index < kept@[a].index);
            }
        }
    }
    let sorted = sort_rows(kept);
    let ghost sv = row_views(sorted@);
    proof {
        crate::storage::table::lemma_reordering(kv, sv);
    }
    let mut r: Vec<usize> = Vec::new();
    let mut k: usize = 0;
    while k < sorted.len()
        invariant
            k <= sorted@.len(),
            sv == row_views(sorted@),
            r@.len() == k,
            forall|q: int| 0 <= q < k ==> r@[q] == (#[trigger] sv[q]).1,
        decreases sorted@.len() - k,
    {
        assert(sv[k as int] == sorted@[k as int]@);
        r.push(sorted[k].index);
        k = k + 1;
    }
    proof {
        assert forall|q: int| 0 <= q < sv.len() implies sv[q].0 == days@[sv[q].1 as int] && !day_lt(sv[q].0, today)
            && (sv[q].1 as int) < days@.len() by {
            assert(sv.to_set().contains(sv[q]));
            assert(kv.contains(sv[q]));
            let m = choose|m: int| 0 <= m < kv.len() && kv[m] == sv[q];
            assert(kv[m] == kept@[m]@);
        }
        assert forall|k2: int| 0 <= k2 < r@.len() implies r@[k2] < days@.len() by {
            assert(r@[k2] == sv[k2].1);
        }
        assert forall|a: int, b: int| 0 <= a < r@.len() && 0 <= b < r@.len() && a != b implies r@[a] != r@[b] by {
            assert(sv[a] != sv[b]);
            if sv[a].1 == sv[b].1 {
                assert(sv[a].0 == days@[sv[a].1 as int]);
            }
        }
        assert forall|i: int| 0 <= i < days@.len() implies (r@.contains(i as usize) <==> !day_lt(days@[i], today)) by {
            if !day_lt(days@[i], today) {
                assert(kv.contains((days@[i], i as usize)));
                assert(sv.to_set().contains((days@[i], i as usize)));
                let q = choose|q: int| 0 <= q < sv.len() && sv[q] == (days@[i], i as usize);
                assert(r@[q] == i as usize);
            }
            if r@.contains(i as usize) {
                let q = choose|q: int| 0 <= q < r@.len() && r@[q] == i as usize;
                assert(sv[q].1 == i as usize);
            }
        }
        assert forall|a: int, b: int| 0 <= a < b < r@.len() implies day_lt(days@[r@[a] as int], days@[r@[b] as int]) || (
            days@[r@[a] as int] == days@[r@[b] as int] && r@[a] < r@[b]) by {
            assert(!DayAt::precedes(sv[b], sv[a]));
            assert(sv[a] != sv[b]);
            if sv[a].1 == sv[b].1 {
                assert(sv[a].0 == days@[sv[a].1 as int]);
            }
        }
    }
    r
}

} // verus!
