use sms_scraper::catalog::mapper::{
    ArtistMapper, DefaultArtistMapper, DefaultEventMapper, DefaultVenueMapper, EventMapper, MapError, VenueMapper,
};
use sms_scraper::catalog::candidate::ProposedEntity;
use sms_scraper::catalog::event_handler::EventHandler;
use sms_scraper::domain::{CalendarDate, Event, Venue};
use sms_scraper::storage::memory::InMemoryStorage;
use sms_scraper::storage::records::ProcessRun;
use sms_scraper::enrich::{DefaultEnricher, EnrichedRecord};
use sms_scraper::normalize::{NormalizationMetadata, NormalizedEntity, NormalizedRecord, RecordProvenance};
use sms_scraper::quality_gate::{QualityAssessedRecord, QualityAssessment, QualityDecision};

fn enriched(entity: NormalizedEntity) -> EnrichedRecord {
    let record = QualityAssessedRecord {
        normalized_record: NormalizedRecord {
            entity,
            provenance: RecordProvenance {
                envelope_id: "e".to_string(),
                source_id: "s".to_string(),
                payload_ref: "p".to_string(),
                record_path: "$".to_string(),
                normalized_at: 0,
            },
            normalization: NormalizationMetadata { confidence: 900, warnings: Vec::new(), geocoded: true, strategy: "t".to_string() },
        },
        quality_assessment: QualityAssessment {
            decision: QualityDecision::Accept,
            quality_score: 900,
            issues: Vec::new(),
            rule_version: "v1.0.0".to_string(),
        },
        assessed_at: 0,
    };
    DefaultEnricher::new().enrich_at(record, 1)
}

fn venue() -> Venue {
    Venue {
        id: None,
        name: "Ballard Spot".to_string(),
        name_lower: "ballard spot".to_string(),
        slug: "ballard-spot".to_string(),
        address: "1 Market St".to_string(),
        city: "Elsewhere".to_string(),
        postal_code: "98107".to_string(),
        neighborhood: None,
        latitude: 47_669_000,
        longitude: -122_384_700,
        venue_url: None,
        venue_image_url: None,
        description: None,
        show_venue: true,
        created_at: 0,
    }
}

fn event() -> Event {
    Event {
        id: Some(3),
        title: "Show".to_string(),
        event_day: CalendarDate { year: 2025, month: 8, day: 20 },
        start_time: Some(72_000),
        event_url: Some("https://e".to_string()),
        description: None,
        event_image_url: None,
        venue_id: 0,
        artist_ids: vec![9],
        show_event: true,
        finalized: false,
        created_at: 5,
    }
}

#[test]
fn venue_takes_city_and_district_from_enrichment() {
    let v = DefaultVenueMapper.to_venue(&enriched(NormalizedEntity::Venue(venue()))).unwrap();
    assert_eq!(v.city, "Seattle");
    assert_eq!(v.neighborhood, Some("Ballard".to_string()));
    assert_eq!(v.name, "Ballard Spot");
}

#[test]
fn event_is_placed_at_the_venue() {
    let e = DefaultEventMapper.to_event(&enriched(NormalizedEntity::Event(event())), 77).unwrap();
    assert_eq!(e.id, None);
    assert_eq!(e.venue_id, 77);
    assert_eq!(e.artist_ids, vec![9]);
    assert_eq!(e.title, "Show");
}

#[test]
fn wrong_entities_are_refused() {
    match DefaultArtistMapper.to_artist(&enriched(NormalizedEntity::Event(event()))) {
        Err(MapError::MissingField(m)) => assert_eq!(m, "Expected Artist entity in normalized record"),
        Ok(_) => panic!("an event is no artist"),
    }
    match DefaultVenueMapper.to_venue(&enriched(NormalizedEntity::Event(event()))) {
        Err(MapError::MissingField(m)) => assert_eq!(m, "Expected Venue entity in normalized record"),
        Ok(_) => panic!("an event is no venue"),
    }
    match DefaultEventMapper.to_event(&enriched(NormalizedEntity::Venue(venue())), 1) {
        Err(MapError::MissingField(m)) => assert_eq!(m, "Expected Event entity in normalized record"),
        Ok(_) => panic!("a venue is no event"),
    }
}

#[test]
fn event_handler_prepares_persists_and_records() {
    let handler = EventHandler::new();
    assert_eq!(handler.entity_type(), "Event");
    let mut store = InMemoryStorage::new();
    let mut e = event();
    e.venue_id = 77;
    let record = enriched(NormalizedEntity::Event(e));

    let fresh = handler.prepare_candidate_at(&record, 500, &store, 1_000).unwrap();
    assert!(fresh.is_new() && fresh.should_persist);
    assert_eq!(fresh.changes.change_summary, "New event: Show");
    match &fresh.proposed_state {
        ProposedEntity::Event(p) => {
            assert_eq!((p.id, p.venue_id, p.show_event, p.finalized, p.created_at), (Some(500), 77, true, false, 1_000));
        }
        _ => panic!("an event is proposed"),
    }
    let run = ProcessRun { id: Some(42), name: "catalog".to_string(), created_at: 0, finished_at: None };
    let recs = handler.generate_process_records(&fresh, &run, 2_000);
    assert_eq!(recs.len(), 1);
    assert_eq!(recs[0].change_type, "CREATE");
    assert_eq!(recs[0].change_log, "Created new event: Show");
    assert_eq!(recs[0].field_changed, "all");
    assert_eq!((recs[0].process_run_id, recs[0].event_id, recs[0].venue_id), (42, Some(500), Some(77)));
    assert_eq!(recs[0].api_name, "catalog");
    assert_eq!(recs[0].created_at, 2_000);
    assert!(handler.persist_candidate(&fresh, &mut store).unwrap());
    assert_eq!(store.get_all_events(None, None).len(), 1);

    let same = handler.prepare_candidate_at(&record, 500, &store, 1_000).unwrap();
    assert!(!same.is_new() && !same.should_persist);
    assert!(!handler.persist_candidate(&same, &mut store).unwrap());
    let recs = handler.generate_process_records(&same, &run, 3);
    assert_eq!((recs[0].change_type.as_str(), recs[0].change_log.as_str(), recs[0].field_changed.as_str()), ("NO_CHANGE", "No changes detected", "none"));

    let mut changed = event();
    changed.venue_id = 77;
    changed.title = "SHOW".to_string();
    changed.description = Some("late".to_string());
    let changed_record = enriched(NormalizedEntity::Event(changed));
    let update = handler.prepare_candidate_at(&changed_record, 500, &store, 1_000).unwrap();
    assert!(!update.is_new() && update.should_persist);
    let recs = handler.generate_process_records(&update, &run, 4);
    assert_eq!(recs[0].change_type, "UPDATE");
    assert_eq!(recs[0].field_changed, "title, description");
    assert_eq!(recs[0].change_log, "Updated fields: title, description");
    assert!(handler.persist_candidate(&update, &mut store).unwrap());
    assert_eq!(store.get_event_by_id(500).unwrap().title, "SHOW");

    let venue_record = enriched(NormalizedEntity::Venue(venue()));
    assert!(handler.prepare_candidate_at(&venue_record, 1, &store, 0).is_none());
}
