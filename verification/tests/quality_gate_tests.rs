use sms_scraper::domain::{Artist, CalendarDate, Event, Venue};
use sms_scraper::normalize::{NormalizationMetadata, NormalizedEntity, NormalizedRecord, RecordProvenance};
use sms_scraper::quality_gate::{
    calculate_quality_score, determine_decision, hundredths, DefaultQualityGate, QualityDecision, QualityIssueType,
    QualitySeverity,
};

fn record(entity: NormalizedEntity, confidence: u32, warnings: Vec<String>) -> NormalizedRecord {
    NormalizedRecord {
        entity,
        provenance: RecordProvenance {
            envelope_id: "test_envelope".to_string(),
            source_id: "test_source".to_string(),
            payload_ref: "test_payload".to_string(),
            record_path: "$.events[0]".to_string(),
            normalized_at: 0,
        },
        normalization: NormalizationMetadata { confidence, warnings, geocoded: false, strategy: "default".to_string() },
    }
}

fn test_event(title: &str) -> NormalizedEntity {
    NormalizedEntity::Event(Event {
        id: None,
        title: title.to_string(),
        event_day: CalendarDate { year: 2025, month: 8, day: 20 },
        start_time: None,
        event_url: None,
        description: None,
        event_image_url: None,
        venue_id: 0,
        artist_ids: Vec::new(),
        show_event: true,
        finalized: false,
        created_at: 0,
    })
}

const TODAY: CalendarDate = CalendarDate { year: 2025, month: 8, day: 20 };

#[test]
fn test_quality_gate_accepts_good_event() {
    let gate = DefaultQualityGate::new();
    let result = gate.assess_at(record(test_event("Test Concert"), 800, Vec::new()), TODAY, 0);
    assert_eq!(result.quality_assessment.decision, QualityDecision::Accept);
    assert!(result.quality_assessment.quality_score > 600);
}

#[test]
fn low_confidence_is_flagged() {
    let gate = DefaultQualityGate::new();
    let result = gate.assess_at(record(test_event("Test Concert"), 500, Vec::new()), TODAY, 0);
    let issues = &result.quality_assessment.issues;
    assert!(issues.iter().any(|i| matches!(i.issue_type, QualityIssueType::LowConfidence)));
    assert_eq!(issues[0].description, "Normalization confidence 0.50 below threshold 0.70");
    assert_eq!(result.quality_assessment.quality_score, 440);
    assert_eq!(result.quality_assessment.decision, QualityDecision::Quarantine);
}

#[test]
fn missing_title_is_an_error() {
    let gate = DefaultQualityGate::new();
    let result = gate.assess_at(record(test_event(""), 800, Vec::new()), TODAY, 0);
    let issues = &result.quality_assessment.issues;
    assert!(issues.iter().any(|i| matches!(i.issue_type, QualityIssueType::MissingData) && i.severity == QualitySeverity::Error));
    assert_eq!(result.quality_assessment.quality_score, 640);
    assert_eq!(result.quality_assessment.decision, QualityDecision::AcceptWithWarnings);
}

#[test]
fn far_future_event_is_out_of_range() {
    let gate = DefaultQualityGate::new();
    let today = CalendarDate { year: 2024, month: 1, day: 1 };
    let result = gate.assess_at(record(test_event("Test Concert"), 800, Vec::new()), today, 0);
    let issue = result.quality_assessment.issues.iter().find(|i| matches!(i.issue_type, QualityIssueType::OutOfRange)).unwrap();
    assert_eq!(issue.description, "Event date is 597 days in the future");
    assert_eq!(result.quality_assessment.decision, QualityDecision::AcceptWithWarnings);
}

#[test]
fn nameless_venue_is_quarantined() {
    let gate = DefaultQualityGate::new();
    let venue = Venue {
        id: None,
        name: "   ".to_string(),
        name_lower: String::new(),
        slug: String::new(),
        address: String::new(),
        city: "Seattle".to_string(),
        postal_code: String::new(),
        neighborhood: None,
        latitude: 47_606_200,
        longitude: -122_332_100,
        venue_url: None,
        venue_image_url: None,
        description: None,
        show_venue: true,
        created_at: 0,
    };
    let result = gate.assess_at(record(NormalizedEntity::Venue(venue), 1000, Vec::new()), TODAY, 0);
    let kinds: Vec<QualitySeverity> = result.quality_assessment.issues.iter().map(|i| i.severity).collect();
    assert_eq!(kinds, vec![QualitySeverity::Critical, QualitySeverity::Warning, QualitySeverity::Warning]);
    assert_eq!(result.quality_assessment.quality_score, 600);
    assert_eq!(result.quality_assessment.decision, QualityDecision::Quarantine);
}

#[test]
fn short_artist_name_is_suspicious() {
    let gate = DefaultQualityGate::new();
    let artist = Artist { id: None, name: "X".to_string(), name_slug: "x".to_string(), bio: None, artist_image_url: None, created_at: 0 };
    let result = gate.assess_at(record(NormalizedEntity::Artist(artist), 800, vec!["odd".to_string()]), TODAY, 0);
    let issues = &result.quality_assessment.issues;
    assert_eq!(issues.len(), 2);
    assert_eq!(issues[0].description, "Normalization warning: odd");
    assert_eq!(issues[1].description, "Artist name is unusually short");
    assert_eq!(result.quality_assessment.quality_score, 740);
    assert_eq!(result.quality_assessment.decision, QualityDecision::AcceptWithWarnings);
}

#[test]
fn score_never_goes_below_zero() {
    let gate = DefaultQualityGate::new();
    let result = gate.assess_at(record(test_event(""), 100, Vec::new()), TODAY, 0);
    assert_eq!(result.quality_assessment.quality_score, 0);
    assert_eq!(calculate_quality_score(&result.quality_assessment.issues, 100), 0);
    assert_eq!(determine_decision(0, &result.quality_assessment.issues, 600), QualityDecision::Quarantine);
}

#[test]
fn hundredths_drop_the_thousandth() {
    assert_eq!(hundredths(700), "0.70");
    assert_eq!(hundredths(1000), "1.00");
    assert_eq!(hundredths(85), "0.08");
}
