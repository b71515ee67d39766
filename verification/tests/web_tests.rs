use sms_scraper::domain::CalendarDate;
use sms_scraper::json::{write_json, Json};
use sms_scraper::web::{artist_request, events_payload, events_request, item_payload, upcoming_order, venue_request, EventFilter};

fn obj(entries: Vec<(&str, Json)>) -> Json {
    Json::Object(entries.into_iter().map(|(k, v)| (k.to_string(), v)).collect())
}

fn text(j: &Json) -> String {
    let mut out = String::new();
    write_json(j, &mut out);
    out
}

const FIELDS: &str = "id\n                title\n                eventDay\n                startTime\n                eventUrl\n                description\n                eventImageUrl\n                venue { id name address city }\n                artists { id name nameSlug bio artistImageUrl }";

#[test]
fn unfiltered_events_ask_for_the_coming_year() {
    let r = events_request(&EventFilter { venue: None, search: Some("   ".to_string()) });
    let expected = format!(
        "\n            query($days: Int) {{\n                upcomingEvents(days: $days) {{\n                    {}\n                }}\n            }}\n            ",
        FIELDS
    );
    assert_eq!(r.query, expected);
    assert_eq!(text(r.variables.as_ref().unwrap()), r#"{"days":365}"#);
}

#[test]
fn filtered_events_search() {
    let r = events_request(&EventFilter { venue: Some("Neumos".to_string()), search: Some(" jazz ".to_string()) });
    assert!(r.query.starts_with("\n            query($search: String, $venue: String) {\n                searchEvents(search: $search, venue: $venue) {"));
    assert!(r.query.contains(FIELDS));
    assert_eq!(text(r.variables.as_ref().unwrap()), r#"{"search":" jazz ","venue":"Neumos"}"#);
    let r = events_request(&EventFilter { venue: Some("Neumos".to_string()), search: None });
    assert_eq!(text(r.variables.as_ref().unwrap()), r#"{"venue":"Neumos"}"#);
}

#[test]
fn artist_and_venue_requests() {
    let a = artist_request("a-1");
    assert_eq!(
        a.query,
        "\n        query($id: ID!) {\n            artist(id: $id) {\n                id\n                name\n                nameSlug\n                bio\n                artistImageUrl\n            }\n        }\n    "
    );
    assert_eq!(text(a.variables.as_ref().unwrap()), r#"{"id":"a-1"}"#);
    let v = venue_request("v-2");
    assert!(v.query.contains("venue(id: $id)"));
    assert_eq!(text(v.variables.as_ref().unwrap()), r#"{"id":"v-2"}"#);
}

#[test]
fn events_are_taken_from_the_response() {
    let events = Json::Array(vec![obj(vec![("id", Json::Str("1".to_string()))])]);
    let resp = obj(vec![("data", obj(vec![("upcomingEvents", events)]))]);
    assert_eq!(text(&events_payload(&resp).unwrap()), r#"[{"id":"1"}]"#);
    let resp = obj(vec![("errors", Json::Array(vec![obj(vec![("message", Json::Str("boom".to_string()))])]))]);
    assert_eq!(events_payload(&resp).unwrap_err(), r#"GraphQL errors: [{"message":"boom"}]"#);
    assert_eq!(events_payload(&obj(vec![])).unwrap_err(), "No data field found in response");
    assert_eq!(events_payload(&obj(vec![("data", obj(vec![]))])).unwrap_err(), "No events field found in response");
}

#[test]
fn one_item_is_taken_unless_null() {
    let resp = obj(vec![("data", obj(vec![("artist", obj(vec![("name", Json::Str("X".to_string()))]))]))]);
    assert_eq!(text(&item_payload(&resp, "artist").unwrap().unwrap()), r#"{"name":"X"}"#);
    let resp = obj(vec![("data", obj(vec![("venue", Json::Null)]))]);
    assert!(item_payload(&resp, "venue").unwrap().is_none());
    assert!(item_payload(&obj(vec![]), "venue").unwrap().is_none());
}

#[test]
fn upcoming_events_by_day_then_place() {
    let d = |m: u32, day: u32| CalendarDate { year: 2025, month: m, day };
    let days = vec![d(9, 1), d(8, 1), d(8, 20), d(8, 25), d(8, 20), d(12, 31)];
    assert_eq!(upcoming_order(&days, d(8, 20)), vec![2, 4, 3, 0, 5]);
    assert!(upcoming_order(&days, CalendarDate { year: 2026, month: 1, day: 1 }).is_empty());
}
