use sms_scraper::domain::{Artist, CalendarDate, Event, Venue};
use sms_scraper::enrich::{DefaultEnricher, EnrichError, Enricher, PopulationDensity};
use sms_scraper::normalize::{NormalizationMetadata, NormalizedEntity, NormalizedRecord, RecordProvenance};
use sms_scraper::quality_gate::{QualityAssessedRecord, QualityAssessment, QualityDecision};

fn assessed(entity: NormalizedEntity, quality_score: u32) -> QualityAssessedRecord {
    QualityAssessedRecord {
        normalized_record: NormalizedRecord {
            entity,
            provenance: RecordProvenance {
                envelope_id: "test_envelope".to_string(),
                source_id: "test_source".to_string(),
                payload_ref: "test_payload".to_string(),
                record_path: "$.venues[0]".to_string(),
                normalized_at: 0,
            },
            normalization: NormalizationMetadata {
                confidence: 900,
                warnings: Vec::new(),
                geocoded: false,
                strategy: "test".to_string(),
            },
        },
        quality_assessment: QualityAssessment {
            decision: QualityDecision::Accept,
            quality_score,
            issues: Vec::new(),
            rule_version: "v1.0.0".to_string(),
        },
        assessed_at: 0,
    }
}

fn test_venue(latitude: i64, longitude: i64) -> NormalizedEntity {
    NormalizedEntity::Venue(Venue {
        id: None,
        name: "Test Venue".to_string(),
        name_lower: "test venue".to_string(),
        slug: "test-venue".to_string(),
        address: "123 Test St".to_string(),
        city: "Seattle".to_string(),
        postal_code: "98101".to_string(),
        neighborhood: None,
        latitude,
        longitude,
        venue_url: None,
        venue_image_url: None,
        description: None,
        show_venue: true,
        created_at: 0,
    })
}

fn create_test_venue_record() -> QualityAssessedRecord {
    // Belltown area
    assessed(test_venue(47_613_100, -122_342_400), 850)
}

#[test]
fn test_enrich_venue_record() {
    let enricher = DefaultEnricher::new();
    let record = create_test_venue_record();

    let result = enricher.enrich(record).unwrap();

    assert_eq!(result.enrichment.city, Some("Seattle".to_string()));
    assert_eq!(result.enrichment.district, Some("Belltown".to_string()));
    assert!(result.enrichment.confidence > 700);

    assert!(result.enrichment.geo_properties.within_city_bounds);
    assert!(result.enrichment.geo_properties.distance_from_center_mm.is_some());
    assert_eq!(result.enrichment.geo_properties.population_density, PopulationDensity::Dense);

    assert!(result.enrichment.spatial_bin.is_some());
    assert!(result.enrichment.spatial_bin.unwrap().starts_with("seattle_grid_"));

    let tags = &result.enrichment.tags;
    assert!(tags.contains(&"venue".to_string()));
    assert!(tags.contains(&"seattle".to_string()));
    assert!(tags.contains(&"belltown".to_string()));
    assert!(tags.contains(&"upscale".to_string()));
}

#[test]
fn test_distance_calculation() {
    let enricher = DefaultEnricher::new();
    // Distance from Seattle center to roughly Capitol Hill, in millimetres
    let distance = enricher.calculate_distance(47_606_200, -122_332_100, 47_624_900, -122_312_000);
    assert!(distance > 1_000_000 && distance < 3_000_000);
}

#[test]
fn test_spatial_binning() {
    let enricher = DefaultEnricher::new();
    let bin = enricher.generate_spatial_bin(47_613_100, -122_342_400);
    assert!(bin.starts_with("seattle_grid_"));
    assert!(bin.contains("4761"));
}

#[test]
fn distance_is_the_rounded_down_root() {
    let enricher = DefaultEnricher::new();
    // 0.01 degree of latitude is 1.11 km exactly in the flat approximation
    assert_eq!(enricher.calculate_distance(47_000_000, -122_000_000, 47_010_000, -122_000_000), 1_110_000);
    assert_eq!(enricher.calculate_distance(0, 0, 0, 0), 0);
    assert_eq!(enricher.generate_spatial_bin(-5, -10_000), "seattle_grid_-1_-1");
    assert_eq!(enricher.generate_spatial_bin(47_613_100, -122_342_400), "seattle_grid_4761_-12235");
}

#[test]
fn venue_enrichment_details() {
    let enricher = DefaultEnricher::new();
    let result = enricher.enrich(create_test_venue_record()).unwrap();
    let e = &result.enrichment;
    assert_eq!(e.region, Some("King County, WA".to_string()));
    assert_eq!(e.strategy, "default_seattle_enrichment");
    assert_eq!(e.confidence, 870);
    assert_eq!(e.spatial_bin, Some("seattle_grid_4761_-12235".to_string()));
    assert_eq!(e.tags, vec!["venue", "location", "entertainment", "belltown", "urban", "upscale", "seattle", "pacific_northwest"]);
    assert!(e.warnings.is_empty());
    assert_eq!(
        e.geo_properties.nearby_landmarks,
        vec!["Space Needle", "Pike Place Market", "Waterfront", "Belltown", "Capitol Hill"]
    );
    let d = e.geo_properties.distance_from_center_mm.unwrap();
    assert!(d > 1_100_000 && d < 1_200_000);
    assert_eq!(e.geo_properties.transit_accessibility, Some(1000 - (d / 50_000) as u32));
    assert_eq!(e.reference_versions.city_boundaries, Some("seattle_v1.0".to_string()));
}

#[test]
fn records_without_coordinates_get_limited_enrichment() {
    let enricher = DefaultEnricher::new();
    let artist = NormalizedEntity::Artist(Artist {
        id: None,
        name: "Tacocat".to_string(),
        name_slug: "tacocat".to_string(),
        bio: None,
        artist_image_url: None,
        created_at: 0,
    });
    let result = enricher.enrich(assessed(artist, 900)).unwrap();
    let e = &result.enrichment;
    assert_eq!(e.city, None);
    assert_eq!(e.district, None);
    assert_eq!(e.spatial_bin, None);
    assert_eq!(e.confidence, 600);
    assert_eq!(e.geo_properties.population_density, PopulationDensity::Unknown);
    assert_eq!(e.warnings, vec!["No coordinates available for geographic enrichment"]);
    assert_eq!(e.tags, vec!["artist", "performer", "music", "seattle", "pacific_northwest"]);

    let event = NormalizedEntity::Event(Event {
        id: None,
        title: "Show".to_string(),
        event_day: CalendarDate { year: 2025, month: 8, day: 20 },
        start_time: None,
        event_url: None,
        description: None,
        event_image_url: None,
        venue_id: 0,
        artist_ids: Vec::new(),
        show_event: true,
        finalized: false,
        created_at: 0,
    });
    let result = enricher.enrich(assessed(event, 900)).unwrap();
    assert_eq!(result.enrichment.tags, vec!["event", "music", "entertainment", "seattle", "pacific_northwest"]);
}

#[test]
fn far_venues_are_rural_and_flagged() {
    let enricher = DefaultEnricher::new();
    // Spokane
    let result = enricher.enrich(assessed(test_venue(47_658_800, -117_426_000), 500)).unwrap();
    let e = &result.enrichment;
    assert!(!e.geo_properties.within_city_bounds);
    assert_eq!(e.city, None);
    assert_eq!(e.district, Some("Capitol Hill".to_string()));
    assert_eq!(e.geo_properties.population_density, PopulationDensity::Rural);
    assert_eq!(e.geo_properties.transit_accessibility, Some(0));
    assert_eq!(e.warnings, vec!["Coordinates appear to be outside Seattle city bounds"]);
    // 900 - 100 for the quality shortfall - 100 outside the city
    assert_eq!(e.confidence, 700);
    assert!(e.geo_properties.nearby_landmarks.is_empty());
}

#[test]
fn districts_by_rule_order() {
    let enricher = DefaultEnricher::new();
    let district = |lat: i64, lng: i64| enricher.enrich(assessed(test_venue(lat, lng), 900)).unwrap().enrichment.district;
    assert_eq!(district(47_624_900, -122_320_000), Some("Capitol Hill".to_string()));
    assert_eq!(district(47_669_000, -122_384_700), Some("Ballard".to_string()));
    assert_eq!(district(47_595_200, -122_331_600), Some("Pioneer Square".to_string()));
    assert_eq!(district(47_681_500, -122_353_400), Some("Fremont".to_string()));
    assert_eq!(district(47_500_000, -122_400_000), Some("Seattle".to_string()));
    assert_eq!(district(40_000_000, -130_000_000), None);
}

#[test]
fn coordinates_beyond_the_computable_range_are_refused() {
    let enricher = DefaultEnricher::new();
    let r = enricher.enrich(assessed(test_venue(i64::MAX, 0), 900));
    assert_eq!(r.err(), Some(EnrichError::OutOfRange));
    let r = enricher.enrich(assessed(test_venue(0, 0), 1001));
    assert_eq!(r.err(), Some(EnrichError::OutOfRange));
}
