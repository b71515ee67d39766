use sms_scraper::domain::CalendarDate;
use sms_scraper::scrapers::conor_byrne::{RawArtist, RawEvent, ScraperError};
use sms_scraper::scrapers::normalizer::ConorByrneNormalizer;

fn raw(title: &str, date: CalendarDate, time: Option<&str>, artists: Vec<(&str, Option<&str>)>) -> RawEvent {
    RawEvent {
        title: title.to_string(),
        date,
        time: time.map(|t| t.to_string()),
        artists: artists
            .into_iter()
            .map(|(n, u)| RawArtist { name: n.to_string(), url: u.map(|x| x.to_string()) })
            .collect(),
        venue_name: "Conor Byrne Pub".to_string(),
        description: Some("Test description".to_string()),
        ticket_link: Some("https://example.com/tickets".to_string()),
        price: Some("$15".to_string()),
        age_restriction: Some("21+".to_string()),
        additional_info: None,
    }
}

#[test]
fn test_normalize_events() {
    let normalizer = ConorByrneNormalizer::new();
    let raw_events = vec![raw(
        "Test Event",
        CalendarDate { year: 2025, month: 1, day: 15 },
        Some("2025-01-15 20:00:00"),
        vec![("Test Artist 1", Some("https://example.com/artist1")), ("Test Artist 2", None)],
    )];
    let result = normalizer.normalize_events_at(raw_events, 42);
    assert!(result.is_ok());
    let (events, venues, artists) = result.unwrap();
    assert_eq!(events.len(), 1);
    assert_eq!(venues.len(), 1);
    assert_eq!(artists.len(), 2);

    let event = &events[0];
    assert_eq!(event.title, "Test Event");
    assert_eq!(event.venue_id_seed, venues[0].id_seed);
    assert_eq!(event.id_seed, "conor-byrne-test-event-2025-01-15");
    assert_eq!(event.artist_id_seeds, vec!["artist-test-artist-1".to_string(), "artist-test-artist-2".to_string()]);
    // 8 pm Pacific standard time is 4 am UTC the next day.
    assert_eq!(event.starts_at, 1_737_000_000);
    assert_eq!(event.price_text.as_deref().and_then(|p| p.parse::<f64>().ok()), Some(15.0));
    assert_eq!(event.age_restriction, Some("21+".to_string()));

    let venue = &venues[0];
    assert_eq!(venue.name, "Conor Byrne Pub");
    assert_eq!(venue.city, Some("Seattle".to_string()));

    let names: Vec<String> = artists.iter().map(|a| a.name.clone()).collect();
    assert!(names.contains(&"Test Artist 1".to_string()));
    assert!(names.contains(&"Test Artist 2".to_string()));
}

#[test]
fn shows_default_to_seven_pm_and_bill_each_artist_once() {
    let normalizer = ConorByrneNormalizer::new();
    let day = CalendarDate { year: 2025, month: 7, day: 4 };
    let events = vec![
        raw("Summer Show", day, None, vec![("Test Artist 1", Some("first")), ("Other", None)]),
        raw("Late Show", day, None, vec![("test artist 1", Some("second"))]),
    ];
    let (shows, _, artists) = normalizer.normalize_events_at(events, 7).unwrap();
    // 7 pm Pacific daylight time is 2 am UTC the next day.
    assert_eq!(shows[0].starts_at, 1_751_680_800);
    assert_eq!(shows[1].artist_id_seeds, vec!["artist-test-artist-1".to_string()]);
    assert_eq!(artists.len(), 2);
    assert_eq!((artists[0].name.as_str(), artists[0].url.as_deref()), ("Test Artist 1", Some("first")));
    assert_eq!(artists[1].id_seed, "artist-other");
}

#[test]
fn unreadable_starts_stop_the_run() {
    let normalizer = ConorByrneNormalizer::new();
    let good = raw("A", CalendarDate { year: 2025, month: 1, day: 15 }, None, vec![]);
    let bad = raw("B", CalendarDate { year: 2025, month: 1, day: 15 }, Some("soon"), vec![]);
    match normalizer.normalize_events_at(vec![good, bad], 1) {
        Err(ScraperError::ParseError(m)) => assert!(m.starts_with("Failed to parse datetime: ")),
        _ => panic!("the time cannot be read"),
    }
    // 2:30 am on the day clocks spring forward does not exist in Seattle.
    let gap = raw("C", CalendarDate { year: 2025, month: 3, day: 9 }, Some("2025-03-09 02:30:00"), vec![]);
    match normalizer.normalize_events_at(vec![gap], 1) {
        Err(ScraperError::ParseError(m)) => assert_eq!(m, "Failed to convert to Pacific time"),
        _ => panic!("the local time is skipped"),
    }
}
