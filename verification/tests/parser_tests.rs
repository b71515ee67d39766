use sms_scraper::json::Json;
use sms_scraper::parser::{ParsedRecord, WixCalendarV1Parser};
use sms_scraper::scrapers::conor_byrne::{
    AnnounceArtist, ConorByrneEvent, ConorByrneParser, EventMetadata, GraphQLData, GraphQLResponse, PaginatedEvents,
    ScraperError, Venue,
};

fn s(x: &str) -> Json {
    Json::Str(x.to_string())
}

fn obj(entries: Vec<(&str, Json)>) -> Json {
    Json::Object(entries.into_iter().map(|(k, v)| (k.to_string(), v)).collect())
}

fn parser() -> WixCalendarV1Parser {
    WixCalendarV1Parser::new("blue_moon".to_string(), "env-1".to_string(), "cas:sha256:ab".to_string())
}

fn title_of(r: &ParsedRecord) -> Option<String> {
    match r.record.get("title") {
        Some(Json::Str(t)) => Some(t.clone()),
        _ => None,
    }
}

#[test]
fn wix_events_array_gives_one_record_each() {
    let doc = obj(vec![("events", Json::Array(vec![obj(vec![("title", s("A"))]), obj(vec![("title", s("B"))])]))]);
    let out = parser().parse_document(doc);
    assert_eq!(out.len(), 2);
    assert_eq!(out[0].record_path, "$.events[*]");
    assert_eq!(title_of(&out[0]).as_deref(), Some("A"));
    assert_eq!(title_of(&out[1]).as_deref(), Some("B"));
    assert_eq!(out[1].source_id, "blue_moon");
    assert_eq!(out[1].envelope_id, "env-1");
    assert_eq!(out[1].payload_ref, "cas:sha256:ab");
}

#[test]
fn wix_events_by_dates_sets_the_day() {
    let doc = obj(vec![(
        "eventsByDates",
        obj(vec![
            ("2025-08-15", Json::Array(vec![obj(vec![("title", s("A"))]), Json::Null])),
            ("2025-08-16", Json::Array(vec![obj(vec![("title", s("C")), ("event_day", s("old"))])])),
            ("2025-08-17", s("not a list")),
        ]),
    )]);
    let out = parser().parse_document(doc);
    assert_eq!(out.len(), 3);
    assert_eq!(out[0].record_path, "$.eventsByDates.2025-08-15[*]");
    assert_eq!(out[2].record_path, "$.eventsByDates.2025-08-16[*]");
    match out[1].record.get("event_day") {
        Some(Json::Str(d)) => assert_eq!(d, "2025-08-15"),
        _ => panic!("event_day missing"),
    }
    match out[2].record.get("event_day") {
        Some(Json::Str(d)) => assert_eq!(d, "2025-08-16"),
        _ => panic!("event_day missing"),
    }
    assert_eq!(title_of(&out[2]).as_deref(), Some("C"));
}

#[test]
fn wix_other_documents_fall_back_to_the_whole() {
    let out = parser().parse_document(obj(vec![("something", Json::Bool(true))]));
    assert_eq!(out.len(), 1);
    assert_eq!(out[0].record_path, "$");
}

fn feed_event(name: &str, date: &str) -> ConorByrneEvent {
    ConorByrneEvent {
        id: 1,
        name: name.to_string(),
        date: date.to_string(),
        door_time: None,
        start_time: Some("20:00:00".to_string()),
        end_time: None,
        minimum_age: Some(21),
        promoter: None,
        support: None,
        description: Some("<p>Great &amp; loud</p>".to_string()),
        website_url: None,
        twitter_url: None,
        instagram_url: None,
        status: Some("$15".to_string()),
        announce_artists: Some(vec![AnnounceArtist {
            name: "Test Artist".to_string(),
            applemusic: None,
            bandcamp: Some("https://b.example".to_string()),
            facebook: None,
            instagram: None,
            lastfm: None,
            songkick: None,
            spotify: None,
            twitter: None,
            website: None,
            wikipedia: None,
            youtube: None,
        }]),
        artists: None,
        venue: None,
        footer_content: None,
        tickets_url: None,
    }
}

fn response(events: Vec<ConorByrneEvent>) -> GraphQLResponse {
    GraphQLResponse {
        data: GraphQLData {
            paginated_events: PaginatedEvents {
                collection: events,
                metadata: EventMetadata { current_page: Some(1), limit_value: None, total_count: None, total_pages: None },
            },
        },
    }
}

#[test]
fn test_parse_events() {
    let events = ConorByrneParser::new().parse_events(response(vec![feed_event("Test Event", "2025-01-15")])).unwrap();
    assert_eq!(events.len(), 1);
    let e = &events[0];
    assert_eq!(e.title, "Test Event");
    assert_eq!(e.time.as_deref(), Some("2025-01-15 20:00:00"));
    assert_eq!(e.artists.len(), 1);
    assert_eq!(e.artists[0].name, "Test Artist");
    assert_eq!(e.artists[0].url.as_deref(), Some("https://b.example"));
    assert_eq!(e.venue_name, "Conor Byrne Pub");
    assert_eq!(e.description.as_deref(), Some("Great & loud"));
    assert_eq!(e.price.as_deref(), Some("$15"));
    assert_eq!(e.age_restriction.as_deref(), Some("21+"));
    assert_eq!(e.ticket_link, None);
}

#[test]
fn conor_byrne_bad_date_fails_the_response() {
    let mut second = feed_event("Later", "2025-01-16");
    second.venue = Some(Venue { name: "Elsewhere".to_string() });
    let r = ConorByrneParser::new().parse_events(response(vec![second, feed_event("Bad", "15/01/2025")]));
    match r {
        Err(ScraperError::ParseError(m)) => assert!(m.starts_with("Failed to parse date: ")),
        Ok(_) => panic!("expected an error"),
    }
}

#[test]
fn conor_byrne_defaults_to_seven_pm_and_free_is_no_price() {
    let mut e = feed_event("Show", "2025-02-01");
    e.start_time = None;
    e.status = Some("Free".to_string());
    e.tickets_url = None;
    let events = ConorByrneParser::new().parse_events(response(vec![e])).unwrap();
    assert_eq!(events[0].time.as_deref(), Some("2025-02-01 19:00:00"));
    assert_eq!(events[0].price, None);
}
