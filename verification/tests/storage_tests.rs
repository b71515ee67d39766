use sms_scraper::catalog::catalogger::Catalogger;
use sms_scraper::catalog::provenance::ProvenanceTracker;
use sms_scraper::domain::{Artist, CalendarDate, Event, Venue};
use sms_scraper::json::Json;
use sms_scraper::storage::memory::{InMemoryStorage, StorageError};
use sms_scraper::storage::records::{ProcessRecord, ProcessRun, RawData};

fn day(year: i32, month: u32, day: u32) -> CalendarDate {
    CalendarDate { year, month, day }
}

fn venue(name: &str) -> Venue {
    Venue {
        id: None,
        name: name.to_string(),
        name_lower: name.to_lowercase(),
        slug: name.to_lowercase().replace(' ', "-"),
        address: "5140 Ballard Ave NW".to_string(),
        city: "Seattle".to_string(),
        postal_code: "98107".to_string(),
        neighborhood: Some("Ballard".to_string()),
        latitude: 47_668_600,
        longitude: -122_384_200,
        venue_url: None,
        venue_image_url: None,
        description: None,
        show_venue: true,
        created_at: 1,
    }
}

fn artist(name: &str) -> Artist {
    Artist {
        id: None,
        name: name.to_string(),
        name_slug: name.to_lowercase().replace(' ', "-"),
        bio: None,
        artist_image_url: None,
        created_at: 2,
    }
}

fn event(title: &str, d: CalendarDate, venue_id: u128, artist_ids: Vec<u128>) -> Event {
    Event {
        id: None,
        title: title.to_string(),
        event_day: d,
        start_time: Some(20 * 3600),
        event_url: None,
        description: Some("live".to_string()),
        event_image_url: None,
        venue_id,
        artist_ids,
        show_event: true,
        finalized: false,
        created_at: 3,
    }
}

fn raw(api: &str, d: CalendarDate, name: &str) -> RawData {
    RawData {
        id: None,
        api_name: api.to_string(),
        event_api_id: format!("{}-{}", api, name),
        event_name: name.to_string(),
        venue_name: "Test Venue".to_string(),
        event_day: d,
        data: Json::Object(vec![("title".to_string(), Json::Str(name.to_string()))]),
        processed: false,
        event_id: None,
        created_at: 4,
    }
}

#[test]
fn created_venue_is_read_back_by_id_and_name() {
    let mut s = InMemoryStorage::new();
    let mut v = venue("Conor Byrne Pub");
    assert!(s.create_venue(&mut v).is_ok());
    let id = v.id.expect("an id is set");
    let back = s.get_venue_by_id(id).expect("stored");
    assert_eq!(back.id, Some(id));
    assert_eq!(back.name, "Conor Byrne Pub");
    assert_eq!(back.address, "5140 Ballard Ave NW");
    let by_name = s.get_venue_by_name("conor BYRNE pub").expect("found ignoring case");
    assert_eq!(by_name.id, Some(id));
    assert!(s.get_venue_by_name("Blue Moon").is_none());
    assert!(s.get_venue_by_id(id.wrapping_add(1)).is_none());
}

#[test]
fn created_ids_are_version_four_uuids() {
    let mut s = InMemoryStorage::new();
    let mut a = artist("Neko Case");
    s.create_artist(&mut a).unwrap();
    let id = a.id.unwrap();
    assert_eq!((id >> 76) & 0xF, 4);
    assert_eq!((id >> 62) & 0x3, 2);
    assert_eq!(s.get_artist_by_name("NEKO CASE").unwrap().id, Some(id));
    assert_eq!(s.get_artist_by_id(id).unwrap().name_slug, "neko-case");
}

#[test]
fn updating_an_event_replaces_it_and_needs_an_id() {
    let mut s = InMemoryStorage::new();
    let mut e = event("First Title", day(2025, 8, 20), 7, vec![1, 2]);
    s.create_event(&mut e).unwrap();
    let id = e.id.unwrap();
    e.title = "Second Title".to_string();
    assert!(s.update_event(&e).is_ok());
    let back = s.get_event_by_id(id).unwrap();
    assert_eq!(back.title, "Second Title");
    assert_eq!(back.artist_ids, vec![1, 2]);
    assert_eq!(s.get_all_events(None, None).len(), 1);

    let unsaved = event("No Id", day(2025, 8, 21), 7, vec![]);
    match s.update_event(&unsaved) {
        Err(StorageError::Api { message }) => assert_eq!(message, "Cannot update event without ID"),
        Ok(()) => panic!("an event without an id cannot be updated"),
    }
    assert_eq!(s.get_all_events(None, None).len(), 1);
}

#[test]
fn event_is_found_by_venue_day_and_title_ignoring_case() {
    let mut s = InMemoryStorage::new();
    let mut e = event("Jazz Night", day(2025, 9, 1), 42, vec![]);
    s.create_event(&mut e).unwrap();
    let found = s.get_event_by_venue_date_title(42, day(2025, 9, 1), "JAZZ night").unwrap();
    assert_eq!(found.id, e.id);
    assert!(s.get_event_by_venue_date_title(43, day(2025, 9, 1), "Jazz Night").is_none());
    assert!(s.get_event_by_venue_date_title(42, day(2025, 9, 2), "Jazz Night").is_none());
}

#[test]
fn listings_come_sorted() {
    let mut s = InMemoryStorage::new();
    for name in ["The Crocodile", "Barboza", "Neumos", "Blue Moon"] {
        let mut v = venue(name);
        s.create_venue(&mut v).unwrap();
    }
    let names: Vec<String> = s.get_all_venues(None, None).into_iter().map(|v| v.name).collect();
    assert_eq!(names, vec!["Barboza", "Blue Moon", "Neumos", "The Crocodile"]);

    let page: Vec<String> = s.get_all_venues(Some(2), Some(1)).into_iter().map(|v| v.name).collect();
    assert_eq!(page, vec!["Blue Moon", "Neumos"]);
    assert!(s.get_all_venues(Some(2), Some(10)).is_empty());
    assert_eq!(s.get_all_venues(Some(10), None).len(), 4);

    for (t, d) in [("c", day(2025, 9, 3)), ("a", day(2025, 1, 31)), ("b", day(2025, 2, 1))] {
        let mut e = event(t, d, 1, vec![]);
        s.create_event(&mut e).unwrap();
    }
    let titles: Vec<String> = s.get_all_events(None, None).into_iter().map(|e| e.title).collect();
    assert_eq!(titles, vec!["a", "b", "c"]);
}

#[test]
fn events_by_venue_artist_and_dates() {
    let mut s = InMemoryStorage::new();
    let mut e1 = event("one", day(2025, 8, 3), 10, vec![100]);
    let mut e2 = event("two", day(2025, 8, 1), 10, vec![100, 200]);
    let mut e3 = event("three", day(2025, 8, 2), 20, vec![200]);
    s.create_event(&mut e1).unwrap();
    s.create_event(&mut e2).unwrap();
    s.create_event(&mut e3).unwrap();

    let at_ten: Vec<String> = s.get_events_by_venue_id(10).into_iter().map(|e| e.title).collect();
    assert_eq!(at_ten, vec!["two", "one"]);
    let with_200: Vec<String> = s.get_events_by_artist_id(200).into_iter().map(|e| e.title).collect();
    assert_eq!(with_200, vec!["two", "three"]);
    assert!(s.get_events_by_artist_id(300).is_empty());
    let range: Vec<String> = s.get_events_by_date_range(day(2025, 8, 2), day(2025, 8, 3)).into_iter().map(|e| e.title).collect();
    assert_eq!(range, vec!["three", "one"]);
}

#[test]
fn artists_are_searched_by_part_of_the_name() {
    let mut s = InMemoryStorage::new();
    for name in ["The Black Tones", "Black Belt Eagle Scout", "Tacocat"] {
        let mut a = artist(name);
        s.create_artist(&mut a).unwrap();
    }
    let found: Vec<String> = s.search_artists("black").into_iter().map(|a| a.name).collect();
    assert_eq!(found, vec!["Black Belt Eagle Scout", "The Black Tones"]);
    assert!(s.search_artists("zzz").is_empty());
    assert_eq!(s.get_all_artists(None, Some(1)).len(), 2);
}

#[test]
fn unprocessed_raw_data_by_day_and_marking() {
    let mut s = InMemoryStorage::new();
    let mut a = raw("kexp", day(2025, 8, 5), "late");
    let mut b = raw("kexp", day(2025, 8, 1), "early");
    let mut c = raw("other", day(2025, 8, 2), "elsewhere");
    s.create_raw_data(&mut a).unwrap();
    s.create_raw_data(&mut b).unwrap();
    s.create_raw_data(&mut c).unwrap();

    let names: Vec<String> = s.get_unprocessed_raw_data("kexp", None).into_iter().map(|r| r.event_name).collect();
    assert_eq!(names, vec!["early", "late"]);
    let after: Vec<String> =
        s.get_unprocessed_raw_data("kexp", Some(day(2025, 8, 1))).into_iter().map(|r| r.event_name).collect();
    assert_eq!(after, vec!["late"]);

    s.mark_raw_data_processed(b.id.unwrap()).unwrap();
    let names: Vec<String> = s.get_unprocessed_raw_data("kexp", None).into_iter().map(|r| r.event_name).collect();
    assert_eq!(names, vec!["late"]);
    assert!(s.mark_raw_data_processed(12345).is_ok());

    let copy = &s.get_unprocessed_raw_data("other", None)[0];
    match &copy.data {
        Json::Object(es) => assert_eq!(es[0].0, "title"),
        _ => panic!("data is kept"),
    }
}

#[test]
fn process_runs_and_records() {
    let mut s = InMemoryStorage::new();
    let mut run = ProcessRun { id: None, name: "catalog".to_string(), created_at: 10, finished_at: None };
    s.create_process_run(&mut run).unwrap();
    let run_id = run.id.unwrap();
    let finished = ProcessRun { id: Some(run_id), name: String::new(), created_at: 11, finished_at: Some(12) };
    assert!(s.update_process_run(&finished).is_ok());
    let no_id = ProcessRun { id: None, name: "x".to_string(), created_at: 0, finished_at: None };
    match s.update_process_run(&no_id) {
        Err(StorageError::Api { message }) => assert_eq!(message, "Cannot update process run without ID"),
        Ok(()) => panic!("a run without an id cannot be updated"),
    }
    let mut rec = ProcessRecord {
        id: None,
        process_run_id: run_id,
        api_name: "catalog".to_string(),
        raw_data_id: None,
        change_type: "created".to_string(),
        change_log: "Created venue".to_string(),
        field_changed: "venue".to_string(),
        event_id: None,
        venue_id: Some(5),
        artist_id: None,
        created_at: 13,
    };
    s.create_process_record(&mut rec).unwrap();
    assert!(rec.id.is_some());
}

#[test]
fn test_process_run_lifecycle() {
    let storage = InMemoryStorage::new();
    let mut catalogger = Catalogger::new(storage);

    let run_id = catalogger.start_run("test_run").unwrap();
    assert!(catalogger.process_run_id.is_some());
    assert_eq!(catalogger.process_run_id.unwrap(), run_id);

    catalogger.finish_run().unwrap();
    assert!(catalogger.process_run_id.is_none());
}

#[test]
fn finished_run_is_recorded_under_its_id() {
    let mut catalogger = Catalogger::new(InMemoryStorage::new());
    let id = catalogger.start_run_at("nightly", 10).unwrap();
    assert_eq!(id & 0xF000C000000000000000u128, 0x40008000000000000000u128);
    assert_eq!(catalogger.process_run_id, Some(id));
    catalogger.finish_run_at(20).unwrap();
    catalogger.finish_run_at(30).unwrap();
    assert!(catalogger.process_run_id.is_none());
}

#[test]
fn provenance_is_recorded_only_within_a_run() {
    let mut idle = ProvenanceTracker::new(InMemoryStorage::new(), None);
    assert!(idle.venue_created("Neumos", None).is_ok());
    let mut tracker = ProvenanceTracker::new(InMemoryStorage::new(), Some(7));
    assert!(tracker.venue_created("Neumos", Some(1)).is_ok());
    assert!(tracker.venue_matched("Neumos", 1).is_ok());
    assert!(tracker.venue_duplicate("Neumos", 1).is_ok());
    assert!(tracker.venue_uncertain("Neumos").is_ok());
    assert!(tracker.event_created("Show", Some(2)).is_ok());
    assert!(tracker.event_updated("Show", None).is_ok());
    assert!(tracker.event_duplicate("Show", 2).is_ok());
    assert!(tracker.event_uncertain("Show").is_ok());
    assert!(tracker.artist_created("Band", Some(3)).is_ok());
    assert!(tracker.artist_matched("Band", 3).is_ok());
    assert!(tracker.artist_uncertain("Band").is_ok());
    assert!(tracker.emit_record_at("custom", "log", "field", None, None, None, 5).is_ok());
    tracker.set_process_run_id(None);
    assert_eq!(tracker.process_run_id, None);
}
