use sms_scraper::normalize::normalizers::{ConorByrneNormalizer, DarrellsTavernNormalizer, KexpNormalizer};
use sms_scraper::normalize::registry::{NormalizationRegistry, NormalizerKind};
use sms_scraper::normalize::state::{ArtistStateManager, VenueStateManager};

#[test]
fn test_registry_has_built_in_normalizers() {
    let registry = NormalizationRegistry::new();

    let sources = registry.list_sources();
    assert!(sources.contains(&"sea_monster".to_string()));
    assert!(sources.contains(&"darrells_tavern".to_string()));
    assert!(sources.contains(&"blue_moon".to_string()));
}

#[test]
fn test_registry_returns_error_for_unknown_source() {
    let mut registry = NormalizationRegistry::new();

    let record = ParsedRecord {
        source_id: "unknown_source".to_string(),
        envelope_id: "test".to_string(),
        payload_ref: "test".to_string(),
        record_path: "test".to_string(),
        record: Json::Object(vec![
            ("title".to_string(), Json::Str("Test Event".to_string())),
            ("venue".to_string(), Json::Str("Test Venue".to_string())),
        ]),
    };

    // Should return an error for unknown sources
    let result = registry.normalize(&record, false, &Vec::new(), CalendarDate { year: 2025, month: 8, day: 20 }, 0);
    assert!(result.is_err());
    let result = registry.resolve(&record);
    assert_eq!(registry.get_normalizer("unknown_source"), None);
    match result {
        Err(NormalizeError::Unsupported(m)) => assert_eq!(m, "No normalizer registered for source: unknown_source"),
        _ => panic!("unknown sources are refused"),
    }
    let mut known = record;
    known.source_id = "blue_moon".to_string();
    assert_eq!(registry.resolve(&known).unwrap(), NormalizerKind::BlueMoon);
}

#[test]
fn register_then_get_returns_the_registered_normalizer() {
    let mut registry = NormalizationRegistry::new();
    registry.register("kexp".to_string(), NormalizerKind::Kexp);
    assert_eq!(registry.get_normalizer("kexp"), Some(NormalizerKind::Kexp));
    assert_eq!(registry.get_normalizer("blue_moon"), Some(NormalizerKind::BlueMoon));
    registry.register("blue_moon".to_string(), NormalizerKind::ConorByrne);
    assert_eq!(registry.get_normalizer("blue_moon"), Some(NormalizerKind::ConorByrne));
    assert_eq!(registry.list_sources().len(), 4);
}

#[test]
fn venue_is_created_once() {
    let mut v = VenueStateManager::new();
    assert!(v.should_create_venue());
    assert!(!v.should_create_venue());
}

#[test]
fn artist_is_created_once_per_slug() {
    let mut a = ArtistStateManager::new();
    assert!(a.should_create_artist("the-crocodile"));
    assert!(a.should_create_artist("blue-moon"));
    assert!(!a.should_create_artist("the-crocodile"));
}

#[test]
fn normalizers_know_their_sources() {
    assert_eq!(ConorByrneNormalizer::new().source_id(), "conor_byrne");
    assert_eq!(DarrellsTavernNormalizer::new().source_id(), "darrells_tavern");
    assert_eq!(KexpNormalizer::new().source_id(), "kexp");
}

use sms_scraper::domain::CalendarDate;
use sms_scraper::json::Json;
use sms_scraper::normalize::extract::{micro_degrees, DefaultNormalizer, NormalizeError, Normalizer};
use sms_scraper::normalize::NormalizedEntity;
use sms_scraper::parser::ParsedRecord;

fn parsed(entries: Vec<(&str, Json)>) -> ParsedRecord {
    ParsedRecord {
        source_id: "test_source".to_string(),
        envelope_id: "test_envelope".to_string(),
        payload_ref: "test_payload".to_string(),
        record_path: "$.events[0]".to_string(),
        record: Json::Object(entries.into_iter().map(|(k, v)| (k.to_string(), v)).collect()),
    }
}

fn text(x: &str) -> Json {
    Json::Str(x.to_string())
}

#[test]
fn test_normalize_simple_event() {
    let normalizer = DefaultNormalizer::new();
    let record = parsed(vec![
        ("title", text("Test Concert")),
        ("event_day", text("2025-08-15")),
        ("venue", text("Test Venue")),
        ("artist", text("Test Artist")),
    ]);

    let results = normalizer.normalize(&record).unwrap();

    assert_eq!(results.len(), 3);
    let event_count = results.iter().filter(|r| matches!(r.entity, NormalizedEntity::Event(_))).count();
    let venue_count = results.iter().filter(|r| matches!(r.entity, NormalizedEntity::Venue(_))).count();
    let artist_count = results.iter().filter(|r| matches!(r.entity, NormalizedEntity::Artist(_))).count();
    assert_eq!(event_count, 1);
    assert_eq!(venue_count, 1);
    assert_eq!(artist_count, 1);
}

#[test]
fn test_normalize_multiple_artists() {
    let normalizer = DefaultNormalizer::new();
    let record = parsed(vec![
        ("title", text("Multi-Artist Show")),
        ("event_day", text("2025-08-15")),
        ("venue", text("Test Venue")),
        ("artist", text("Artist One, Artist Two & Artist Three")),
    ]);

    let results = normalizer.normalize(&record).unwrap();

    assert_eq!(results.len(), 5);
    let artist_count = results.iter().filter(|r| matches!(r.entity, NormalizedEntity::Artist(_))).count();
    assert_eq!(artist_count, 3);
}

const TODAY: CalendarDate = CalendarDate { year: 2025, month: 8, day: 20 };

#[test]
fn normalized_fields_in_detail() {
    let normalizer = DefaultNormalizer::new();
    let record = parsed(vec![
        ("name", text("Late Show")),
        ("event_day", text("08/15/2025")),
        ("start_time", text("21:30")),
        ("url", text("https://example.com/e")),
        ("venue_name", text("Conor Byrne's \"Pub\"")),
        ("latitude", Json::Number("47.6686".to_string())),
        ("longitude", Json::Number("-122.3842".to_string())),
        ("zip", text("98107")),
        ("artists", Json::Array(vec![text("Band A"), Json::Null, text(""), text("Band B")])),
    ]);
    let out = normalizer.normalize_at(&record, TODAY, 99);
    assert_eq!(out.len(), 4);
    match &out[0].entity {
        NormalizedEntity::Event(e) => {
            assert_eq!(e.title, "Late Show");
            assert_eq!(e.event_day, CalendarDate { year: 2025, month: 8, day: 15 });
            assert_eq!(e.start_time, Some(21 * 3600 + 30 * 60));
            assert_eq!(e.event_url.as_deref(), Some("https://example.com/e"));
            assert_eq!(e.created_at, 99);
        },
        _ => panic!("the event comes first"),
    }
    assert_eq!(out[0].normalization.confidence, 900);
    assert_eq!(out[0].normalization.strategy, "default_event_extraction");
    assert_eq!(out[0].provenance.record_path, "$.events[0]");
    assert_eq!(out[0].provenance.normalized_at, 99);
    match &out[1].entity {
        NormalizedEntity::Venue(v) => {
            assert_eq!(v.name, "Conor Byrne's \"Pub\"");
            assert_eq!(v.slug, "conor-byrnes-pub");
            assert_eq!(v.city, "Seattle");
            assert_eq!(v.postal_code, "98107");
            assert_eq!(v.address, "");
            assert_eq!(v.latitude, 47_668_600);
            assert_eq!(v.longitude, -122_384_200);
        },
        _ => panic!("the venue comes second"),
    }
    assert_eq!(out[1].normalization.confidence, 900);
    assert!(out[1].normalization.geocoded);
    assert!(out[1].normalization.warnings.is_empty());
    match &out[3].entity {
        NormalizedEntity::Artist(a) => {
            assert_eq!(a.name, "Band B");
            assert_eq!(a.name_slug, "band-b");
        },
        _ => panic!("artists come last"),
    }
    assert_eq!(out[3].normalization.confidence, 800);
}

#[test]
fn defaults_when_fields_are_missing() {
    let normalizer = DefaultNormalizer::new();
    let record = parsed(vec![("title", Json::Bool(true)), ("location", text("Somewhere")), ("bands", text(" + ,A+B"))]);
    let out = normalizer.normalize_at(&record, TODAY, 5);
    assert_eq!(out.len(), 4);
    match &out[0].entity {
        NormalizedEntity::Event(e) => {
            assert_eq!(e.title, "Untitled Event");
            assert_eq!(e.event_day, TODAY);
            assert_eq!(e.start_time, None);
        },
        _ => panic!("the event comes first"),
    }
    match &out[1].entity {
        NormalizedEntity::Venue(v) => {
            assert_eq!((v.latitude, v.longitude), (47_606_200, -122_332_100));
        },
        _ => panic!("the venue comes second"),
    }
    let warning = "Using default Seattle coordinates - address geocoding not available".to_string();
    assert_eq!(out[1].normalization.confidence, 700);
    assert!(!out[1].normalization.geocoded);
    assert_eq!(out[1].normalization.warnings, vec![warning.clone()]);
    assert_eq!(out[2].normalization.warnings, vec![warning]);
    assert!(out[0].normalization.warnings.is_empty());
    let names: Vec<String> = out[2..]
        .iter()
        .map(|r| match &r.entity {
            NormalizedEntity::Artist(a) => a.name.clone(),
            _ => String::new(),
        })
        .collect();
    assert_eq!(names, vec!["A", "B"]);
}

#[test]
fn a_record_without_venue_gives_event_only() {
    let out = DefaultNormalizer::new().normalize_at(&parsed(vec![("title", text("Solo"))]), TODAY, 0);
    assert_eq!(out.len(), 1);
}

#[test]
fn decimal_coordinates_in_millionths() {
    assert_eq!(micro_degrees("47.6062"), Some(47_606_200));
    assert_eq!(micro_degrees("-122.3321"), Some(-122_332_100));
    assert_eq!(micro_degrees("12"), Some(12_000_000));
    assert_eq!(micro_degrees("0.1234567"), Some(123_456));
    assert_eq!(micro_degrees("-0.000001"), Some(-1));
    assert_eq!(micro_degrees("1e3"), None);
    assert_eq!(micro_degrees("1."), None);
    assert_eq!(micro_degrees(".5"), None);
    assert_eq!(micro_degrees("-"), None);
    assert_eq!(micro_degrees("9223372036854.775807"), Some(i64::MAX));
    assert_eq!(micro_degrees("9223372036854.775808"), None);
    assert_eq!(micro_degrees("-9223372036854.775808"), Some(i64::MIN));
}

fn darrells_record(title: &str, day: &str) -> ParsedRecord {
    ParsedRecord {
        source_id: "darrells_tavern".to_string(),
        envelope_id: "env".to_string(),
        payload_ref: "ref".to_string(),
        record_path: "$".to_string(),
        record: Json::Object(vec![
            ("title".to_string(), Json::Str(title.to_string())),
            ("event_day".to_string(), Json::Str(day.to_string())),
        ]),
    }
}

#[test]
fn darrells_normalizer_emits_venue_and_artists_once() {
    let today = CalendarDate { year: 2025, month: 1, day: 1 };
    let mut n = DarrellsTavernNormalizer::new();
    let first = n.normalize_at(&darrells_record("The Crocodile Band", "2025-08-20"), false, today, 7);
    assert_eq!(first.len(), 3);
    let artist_id = match &first[0].entity {
        NormalizedEntity::Artist(a) => {
            assert_eq!(a.name_slug, "the-crocodile-band");
            a.id.unwrap()
        }
        _ => panic!("the artist comes first"),
    };
    match &first[1].entity {
        NormalizedEntity::Event(e) => {
            assert_eq!(e.event_day, CalendarDate { year: 2025, month: 8, day: 20 });
            assert_eq!(e.artist_ids, vec![artist_id]);
            assert_eq!(e.venue_id, 0);
        }
        _ => panic!("then the event"),
    }
    assert_eq!(first[1].normalization.confidence, 900);
    match &first[2].entity {
        NormalizedEntity::Venue(v) => assert_eq!((v.name.as_str(), v.latitude), ("Darrell's Tavern", 47_678_000)),
        _ => panic!("then the venue"),
    }
    let second = n.normalize_at(&darrells_record("The Crocodile Band", "bad"), false, today, 8);
    assert_eq!(second.len(), 1);
    match &second[0].entity {
        NormalizedEntity::Event(e) => assert_eq!(e.event_day, today),
        _ => panic!("only the event"),
    }
    let trivia = n.normalize_at(&darrells_record("Trivia Night", "2025-08-21"), true, today, 9);
    match &trivia[0].entity {
        NormalizedEntity::Event(e) => assert!(e.artist_ids.is_empty()),
        _ => panic!("only the event"),
    }
}

#[test]
fn kexp_normalizer_reads_its_formats() {
    let today = CalendarDate { year: 2025, month: 1, day: 1 };
    let mut registry = NormalizationRegistry::new();
    registry.register("kexp".to_string(), NormalizerKind::Kexp);
    let record = ParsedRecord {
        source_id: "kexp".to_string(),
        envelope_id: "env".to_string(),
        payload_ref: "ref".to_string(),
        record_path: "$".to_string(),
        record: Json::Object(vec![
            ("title".to_string(), Json::Str("Car Seat Headrest".to_string())),
            ("date".to_string(), Json::Str("August 22, 2025".to_string())),
            ("time".to_string(), Json::Str("1:00 PM".to_string())),
            ("location".to_string(), Json::Str("KEXP Studio".to_string())),
        ]),
    };
    let out = registry.normalize(&record, false, &Vec::new(), today, 3).unwrap();
    assert_eq!(out.len(), 3);
    match &out[0].entity {
        NormalizedEntity::Event(e) => {
            assert_eq!(e.event_day, CalendarDate { year: 2025, month: 8, day: 22 });
            assert_eq!(e.start_time, Some(13 * 3600));
            assert_eq!(e.description, Some("KEXP Studio".to_string()));
        }
        _ => panic!("the event comes first"),
    }
    match &out[1].entity {
        NormalizedEntity::Artist(a) => assert_eq!((a.id, a.name_slug.as_str()), (None, "car-seat-headrest")),
        _ => panic!("then the artist"),
    }
    assert_eq!(registry.normalize(&record, false, &Vec::new(), today, 4).unwrap().len(), 1);
    let mut moon = record;
    moon.source_id = "blue_moon".to_string();
    assert!(registry.normalize(&moon, false, &Vec::new(), today, 5).is_err());
}

#[test]
fn conor_byrne_normalizer_splits_supporting_acts() {
    let today = CalendarDate { year: 2025, month: 1, day: 1 };
    let mut registry = NormalizationRegistry::new();
    registry.register("conor_byrne".to_string(), NormalizerKind::ConorByrne);
    let record = ParsedRecord {
        source_id: "conor_byrne".to_string(),
        envelope_id: "env".to_string(),
        payload_ref: "ref".to_string(),
        record_path: "$".to_string(),
        record: Json::Object(vec![
            ("title".to_string(), Json::Str("The Head Band".to_string())),
            ("event_day".to_string(), Json::Str("2025-09-05".to_string())),
            ("event_time".to_string(), Json::Str("8:00 PM".to_string())),
            ("supporting_acts".to_string(), Json::Str("Alpha & Open Mic, Beta ,".to_string())),
            ("age_restriction".to_string(), Json::Str("21+".to_string())),
        ]),
    };
    let flags = vec![false, true, false];
    let out = registry.normalize(&record, false, &flags, today, 11).unwrap();
    // headliner, two artist acts, the event, the venue
    assert_eq!(out.len(), 5);
    let mut ids = Vec::new();
    for (k, slug) in [(0, "the-head-band"), (1, "alpha"), (2, "beta")] {
        match &out[k].entity {
            NormalizedEntity::Artist(a) => {
                assert_eq!(a.name_slug, slug);
                ids.push(a.id.unwrap());
            }
            _ => panic!("artists come first"),
        }
    }
    assert_eq!(out[0].normalization.confidence, 900);
    assert_eq!(out[1].normalization.confidence, 850);
    let venue_id = match &out[4].entity {
        NormalizedEntity::Venue(v) => {
            assert_eq!((v.name.as_str(), v.latitude, v.longitude), ("Conor Byrne Pub", 47_668_600, -122_384_200));
            v.id.unwrap()
        }
        _ => panic!("the venue comes last"),
    };
    match &out[3].entity {
        NormalizedEntity::Event(e) => {
            assert_eq!(e.event_day, CalendarDate { year: 2025, month: 9, day: 5 });
            assert_eq!(e.start_time, Some(20 * 3600));
            assert_eq!(e.description, Some("With Alpha & Open Mic, Beta , | Age: 21+".to_string()));
            assert_eq!(e.event_url, Some("https://www.conorbyrnepub.com".to_string()));
            assert_eq!(e.artist_ids, ids);
            assert_eq!(e.venue_id, venue_id);
        }
        _ => panic!("then the event"),
    }
    assert_eq!(out[3].normalization.confidence, 950);
    // the second time, nothing is new but the event
    let again = registry.normalize(&record, false, &flags, today, 12).unwrap();
    assert_eq!(again.len(), 1);
}
