use sms_scraper::catalog::candidate::{CatalogCandidate, ChangeSet, PersistedEntity, ProposedEntity};
use sms_scraper::catalog::changes::detect_event_changes;
use sms_scraper::catalog::idempotency::IdempotencyChecker;
use sms_scraper::catalog::mapper::EntityUtils;
use sms_scraper::domain::{Artist, CalendarDate, Event, Venue};

fn event(title: &str, description: Option<&str>) -> Event {
    Event {
        id: Some(7),
        title: title.to_string(),
        event_day: CalendarDate { year: 2025, month: 8, day: 15 },
        start_time: Some(20 * 3600),
        event_url: Some("http://example.com".to_string()),
        description: description.map(|d| d.to_string()),
        event_image_url: None,
        venue_id: 42,
        artist_ids: vec![],
        show_event: true,
        finalized: false,
        created_at: 0,
    }
}

fn venue(name: &str, neighborhood: &str) -> Venue {
    Venue {
        id: Some(1),
        name: name.to_string(),
        name_lower: "blue moon".to_string(),
        slug: "blue-moon".to_string(),
        address: "123 Main St".to_string(),
        city: "Seattle".to_string(),
        postal_code: "98105".to_string(),
        neighborhood: Some(neighborhood.to_string()),
        latitude: 47_600_000,
        longitude: -122_300_000,
        venue_url: None,
        venue_image_url: None,
        description: None,
        show_venue: true,
        created_at: 0,
    }
}

fn artist(bio: &str) -> Artist {
    Artist {
        id: Some(3),
        name: "The Beatles".to_string(),
        name_slug: "the-beatles".to_string(),
        bio: Some(bio.to_string()),
        artist_image_url: None,
        created_at: 0,
    }
}

#[test]
fn test_slug_generation() {
    assert_eq!(EntityUtils::generate_slug("The Crocodile"), "the-crocodile");
    assert_eq!(EntityUtils::generate_slug("Blue Moon Tavern"), "blue-moon-tavern");
    assert_eq!(EntityUtils::generate_slug("Rock & Roll Club"), "rock-roll-club");
    assert_eq!(EntityUtils::generate_slug("  Spaces  Between  "), "spaces-between");
}

#[test]
fn slug_of_punctuation_only_is_empty() {
    assert_eq!(EntityUtils::generate_slug("--&&--"), "");
    assert_eq!(EntityUtils::generate_slug("AC/DC"), "ac-dc");
}

#[test]
fn test_event_has_changes() {
    let event1 = event("Concert A", Some("Description"));
    let event2 = event("Concert A", Some("Description"));
    assert!(!IdempotencyChecker::event_has_changes(&event1, &event2));

    let event2 = event("Concert B", Some("Description"));
    assert!(IdempotencyChecker::event_has_changes(&event1, &event2));

    let event2 = event("Concert A", Some("New Description"));
    assert!(IdempotencyChecker::event_has_changes(&event1, &event2));
}

#[test]
fn test_venue_has_changes() {
    let venue1 = venue("Blue Moon", "U-District");
    let venue2 = venue("Blue Moon", "U-District");
    assert!(!IdempotencyChecker::venue_has_changes(&venue1, &venue2));

    let venue2 = venue("Blue Moon Tavern", "U-District");
    assert!(IdempotencyChecker::venue_has_changes(&venue1, &venue2));

    let venue2 = venue("Blue Moon", "University District");
    assert!(IdempotencyChecker::venue_has_changes(&venue1, &venue2));
}

#[test]
fn test_artist_has_changes() {
    let artist1 = artist("Famous band");
    let artist2 = artist("Famous band");
    assert!(!IdempotencyChecker::artist_has_changes(&artist1, &artist2));

    let artist2 = artist("Very famous band");
    assert!(IdempotencyChecker::artist_has_changes(&artist1, &artist2));
}

#[test]
fn venue_change_is_symmetric() {
    let a = venue("Blue Moon", "U-District");
    let b = venue("Blue Moon", "Fremont");
    assert_eq!(IdempotencyChecker::venue_has_changes(&a, &b), IdempotencyChecker::venue_has_changes(&b, &a));
}

#[test]
fn test_detect_event_changes() {
    let current = event("Test Concert", Some("A great concert"));
    let proposed = event("Test Concert", Some("A great concert"));
    let cs = detect_event_changes(&proposed, &current);
    assert!(!cs.has_changes);
    assert_eq!(cs.changed_fields.len(), 0);

    let proposed = event("Updated Concert", Some("A great concert"));
    let cs = detect_event_changes(&proposed, &current);
    assert!(cs.has_changes);
    assert_eq!(cs.changed_fields.len(), 1);
    assert_eq!(cs.changed_fields[0].field_name, "title");
    assert_eq!(cs.changed_fields[0].old_value.as_deref(), Some("Test Concert"));
    assert_eq!(cs.changed_fields[0].new_value.as_deref(), Some("Updated Concert"));
    assert_eq!(cs.change_summary, "Updated event: Updated Concert");
}

#[test]
fn detect_event_changes_formats_day_time_and_venue() {
    let current = event("Show", None);
    let mut proposed = event("Show", None);
    proposed.event_day = CalendarDate { year: 2025, month: 8, day: 16 };
    proposed.start_time = Some(21 * 3600 + 30 * 60);
    proposed.venue_id = 43;
    let cs = detect_event_changes(&proposed, &current);
    let names: Vec<&str> = cs.changed_fields.iter().map(|f| f.field_name.as_str()).collect();
    assert_eq!(names, vec!["event_day", "start_time", "venue_id"]);
    assert_eq!(cs.changed_fields[0].old_value.as_deref(), Some("2025-08-15"));
    assert_eq!(cs.changed_fields[0].new_value.as_deref(), Some("2025-08-16"));
    assert_eq!(cs.changed_fields[1].old_value.as_deref(), Some("20:00:00"));
    assert_eq!(cs.changed_fields[1].new_value.as_deref(), Some("21:30:00"));
    assert_eq!(cs.changed_fields[2].old_value.as_deref(), Some("00000000-0000-0000-0000-00000000002a"));
}

#[test]
fn change_set_summaries() {
    let mut cs = ChangeSet::no_changes();
    assert_eq!(cs.change_summary, "No changes detected");
    assert_eq!(cs.summarize(), "No changes");
    cs.add_change("title", Some("a".to_string()), Some("b".to_string()));
    cs.add_change("description", None, Some("c".to_string()));
    assert!(cs.has_changes);
    assert_eq!(cs.summarize(), "Updated fields: title, description");
}

#[test]
fn new_entity_candidate_is_persisted() {
    let c = CatalogCandidate::new_entity(ProposedEntity::Artist(artist("bio")));
    assert!(c.is_new());
    assert!(c.has_changes());
    assert!(c.should_persist);
    assert_eq!(c.changes.summarize(), "New artist: The Beatles");

    let e = CatalogCandidate::existing_entity(ProposedEntity::Artist(artist("bio")), PersistedEntity::Artist, ChangeSet::no_changes());
    assert!(!e.is_new());
    assert!(!e.should_persist);
}

