//! The quality gate: issues found in a normalized record, the score left
//! after deducting for them, and the decision to accept or quarantine.
//!
//! Confidences and scores are in thousandths (1000 is certainty);
//! coordinates are in millionths of a degree.

use crate::calendar::{ce_day, ce_day_of, date_exists, now_ms, today_utc};
use crate::domain::{Artist, ArtistView, CalendarDate, Event, EventView, Venue, VenueView};
use crate::normalize::{NormalizedEntity, NormalizedEntityView, NormalizedRecord};
use crate::text::{blank, decimal_spec, i64_text, is_blank, opt_view, owned, signed_decimal_spec, u64_text};
use vstd::prelude::*;
use vstd::string::*;
use vstd::utf8::encode_utf8;

verus! {

/// The verdict of the quality gate on a record.
#[derive(Debug, Clone, Copy, PartialEq, Eq, Structural)]
pub enum QualityDecision {
    Accept,
    AcceptWithWarnings,
    Quarantine,
}

/// The kind of a quality issue.
#[derive(Debug, Clone, Copy, PartialEq, Eq, Structural)]
pub enum QualityIssueType {
    MissingData,
    InvalidFormat,
    OutOfRange,
    SuspiciousValue,
    IncompleteGeography,
    TemporalInconsistency,
    LowConfidence,
    DuplicationConcern,
}

/// How serious an issue is, from least to most.
#[derive(Debug, Clone, Copy, PartialEq, Eq, Structural)]
pub enum QualitySeverity {
    Info,
    Warning,
    Error,
    Critical,
}

/// One issue found in a record.
#[derive(Debug)]
pub struct QualityIssue {
    pub issue_type: QualityIssueType,
    pub severity: QualitySeverity,
    pub description: String,
    pub field: Option<String>,
    pub suggestion: Option<String>,
}

/// The mathematical content of a [`QualityIssue`].
#[verifier::ext_equal]
pub struct QualityIssueView {
    pub issue_type: QualityIssueType,
    pub severity: QualitySeverity,
    pub description: Seq<char>,
    pub field: Option<Seq<char>>,
    pub suggestion: Option<Seq<char>>,
}

impl View for QualityIssue {
    type V = QualityIssueView;

    open spec fn view(&self) -> QualityIssueView {
        QualityIssueView {
            issue_type: self.issue_type,
            severity: self.severity,
            description: self.description@,
            field: opt_view(self.field),
            suggestion: opt_view(self.suggestion),
        }
    }
}

/// The views of a list of issues.
pub open spec fn issues_view(v: Seq<QualityIssue>) -> Seq<QualityIssueView> {
    v.map_values(|i: QualityIssue| i@)
}

/// An issue with the given content.
pub open spec fn issue_spec(
    t: QualityIssueType,
    s: QualitySeverity,
    d: Seq<char>,
    f: Option<Seq<char>>,
    g: Option<Seq<char>>,
) -> QualityIssueView {
    QualityIssueView { issue_type: t, severity: s, description: d, field: f, suggestion: g }
}

/// The rules of a quality gate.
#[derive(Debug)]
pub struct QualityGateConfig {
    /// Thousandths.
    pub min_confidence: u32,
    /// Thousandths.
    pub min_quality_score: u32,
    pub rule_version: String,
    pub require_venue_coordinates: bool,
    pub require_valid_event_dates: bool,
    pub max_future_days: i64,
    pub max_past_days: i64,
}

impl QualityGateConfig {
    /// The default rules: confidence 0.7, score 0.6, version `v1.0.0`,
    /// coordinates and dates checked, events up to a year ahead and a month back.
    pub fn default_config() -> (r: Self)
        ensures
            r.min_confidence == 700,
            r.min_quality_score == 600,
            r.rule_version@ == "v1.0.0"@,
            r.require_venue_coordinates,
            r.require_valid_event_dates,
            r.max_future_days == 365,
            r.max_past_days == 30,
    {
        QualityGateConfig {
            min_confidence: 700,
            min_quality_score: 600,
            rule_version: owned("v1.0.0"),
            require_venue_coordinates: true,
            require_valid_event_dates: true,
            max_future_days: 365,
            max_past_days: 30,
        }
    }
}

/// The length of a text in UTF-8 bytes (what `str::len` counts).
pub open spec fn byte_len(s: Seq<char>) -> int {
    encode_utf8(s).len() as int
}

/// The issues of an event, with `today` as the reference day.
pub open spec fn event_issues(cfg: QualityGateConfig, e: EventView, today: CalendarDate) -> Seq<QualityIssueView> {
    let title: Seq<QualityIssueView> = if blank(e.title) || byte_len(e.title) < 3 {
        seq![issue_spec(QualityIssueType::MissingData, QualitySeverity::Error, "Event title is missing or too short"@,
            Some("title"@), Some("Event title should be at least 3 characters"@))]
    } else {
        Seq::empty()
    };
    let ev = ce_day_of(e.event_day.year, e.event_day.month, e.event_day.day);
    let td = ce_day_of(today.year, today.month, today.day);
    let date: Seq<QualityIssueView> = if cfg.require_valid_event_dates && ev is Some && td is Some {
        let diff = ev->0 - td->0;
        if diff > cfg.max_future_days {
            seq![issue_spec(QualityIssueType::OutOfRange, QualitySeverity::Warning,
                "Event date is "@ + signed_decimal_spec(diff) + " days in the future"@,
                Some("event_day"@), Some("Verify event date is correct"@))]
        } else if diff < -cfg.max_past_days {
            seq![issue_spec(QualityIssueType::OutOfRange, QualitySeverity::Warning,
                "Event date is "@ + signed_decimal_spec(-diff) + " days in the past"@,
                Some("event_day"@), Some("Verify this is not a historical event"@))]
        } else {
            Seq::empty()
        }
    } else {
        Seq::empty()
    };
    let venue: Seq<QualityIssueView> = if e.venue_id == 0 {
        seq![issue_spec(QualityIssueType::MissingData, QualitySeverity::Info,
            "Event has placeholder venue_id (will be resolved in conflation)"@, Some("venue_id"@), None)]
    } else {
        Seq::empty()
    };
    title + date + venue
}

/// Whether the coordinates are the default city-centre ones (within 100
/// millionths of a degree of 47.6062, -122.3321).
pub open spec fn default_coordinates(lat: int, lon: int) -> bool {
    -100 < lat - 47_606_200 < 100 && -100 < lon + 122_332_100 < 100
}

/// Whether the coordinates lie outside latitude 47..48 and longitude -123..-121.
pub open spec fn outside_area(lat: int, lon: int) -> bool {
    lat < 47_000_000 || lat > 48_000_000 || lon < -123_000_000 || lon > -121_000_000
}

/// The issues of a venue.
pub open spec fn venue_issues(cfg: QualityGateConfig, v: VenueView) -> Seq<QualityIssueView> {
    let name: Seq<QualityIssueView> = if blank(v.name) {
        seq![issue_spec(QualityIssueType::MissingData, QualitySeverity::Critical, "Venue name is missing"@,
            Some("name"@), Some("Venue must have a valid name"@))]
    } else {
        Seq::empty()
    };
    let placeholder: Seq<QualityIssueView> = if cfg.require_venue_coordinates && default_coordinates(
        v.latitude as int,
        v.longitude as int,
    ) {
        seq![issue_spec(QualityIssueType::IncompleteGeography, QualitySeverity::Warning,
            "Venue using default Seattle coordinates"@, Some("coordinates"@),
            Some("Provide specific venue address for accurate geocoding"@))]
    } else {
        Seq::empty()
    };
    let area: Seq<QualityIssueView> = if cfg.require_venue_coordinates && outside_area(v.latitude as int, v.longitude as int) {
        seq![issue_spec(QualityIssueType::OutOfRange, QualitySeverity::Error,
            "Venue coordinates appear to be outside Seattle area"@, Some("coordinates"@),
            Some("Verify coordinates are in Seattle region"@))]
    } else {
        Seq::empty()
    };
    let address: Seq<QualityIssueView> = if blank(v.address) {
        seq![issue_spec(QualityIssueType::MissingData, QualitySeverity::Warning, "Venue address is missing"@,
            Some("address"@), Some("Address helps with venue identification and geocoding"@))]
    } else {
        Seq::empty()
    };
    name + placeholder + area + address
}

/// The issues of an artist.
pub open spec fn artist_issues(a: ArtistView) -> Seq<QualityIssueView> {
    if blank(a.name) {
        seq![issue_spec(QualityIssueType::MissingData, QualitySeverity::Critical, "Artist name is missing"@,
            Some("name"@), Some("Artist must have a valid name"@))]
    } else if byte_len(a.name) < 2 {
        seq![issue_spec(QualityIssueType::SuspiciousValue, QualitySeverity::Warning,
            "Artist name is unusually short"@, Some("name"@), Some("Verify artist name is complete"@))]
    } else {
        Seq::empty()
    }
}

/// The issues of an entity.
pub open spec fn entity_issues(cfg: QualityGateConfig, e: NormalizedEntityView, today: CalendarDate) -> Seq<QualityIssueView> {
    match e {
        NormalizedEntityView::Event(ev) => event_issues(cfg, ev, today),
        NormalizedEntityView::Venue(v) => venue_issues(cfg, v),
        NormalizedEntityView::Artist(a) => artist_issues(a),
    }
}

/// A confidence in thousandths as text with two decimals (the thousandth
/// dropped), such as `0.70`.
pub open spec fn hundredths_text(x: nat) -> Seq<char> {
    decimal_spec(x / 1000) + seq!['.'] + decimal_spec((x % 1000) / 100) + decimal_spec((x % 100) / 10)
}

/// The issues raised by the normalization metadata: low confidence, then one
/// per warning.
pub open spec fn metadata_issues(cfg: QualityGateConfig, confidence: nat, warnings: Seq<Seq<char>>) -> Seq<QualityIssueView> {
    let low: Seq<QualityIssueView> = if confidence < cfg.min_confidence {
        seq![issue_spec(QualityIssueType::LowConfidence, QualitySeverity::Warning,
            "Normalization confidence "@ + hundredths_text(confidence) + " below threshold "@
                + hundredths_text(cfg.min_confidence as nat),
            Some("confidence"@), Some("Review source data quality"@))]
    } else {
        Seq::empty()
    };
    low + warnings.map_values(|w: Seq<char>| issue_spec(QualityIssueType::SuspiciousValue, QualitySeverity::Info,
        "Normalization warning: "@ + w, None, None))
}

/// The score deducted for an issue of severity `s`.
pub open spec fn deduction(s: QualitySeverity) -> int {
    match s {
        QualitySeverity::Info => 10,
        QualitySeverity::Warning => 50,
        QualitySeverity::Error => 150,
        QualitySeverity::Critical => 300,
    }
}

/// The score left of `confidence` after deducting for each issue in turn,
/// never below zero.
pub open spec fn score_spec(issues: Seq<QualityIssueView>, confidence: int) -> int
    decreases issues.len(),
{
    if issues.len() == 0 {
        confidence
    } else {
        let s = score_spec(issues.drop_last(), confidence) - deduction(issues.last().severity);
        if s < 0 { 0 } else { s }
    }
}

/// Some issue is critical.
pub open spec fn has_critical(issues: Seq<QualityIssueView>) -> bool {
    exists|i: int| 0 <= i < issues.len() && issues[i].severity == QualitySeverity::Critical
}

/// Some issue is a warning or worse.
pub open spec fn has_warning(issues: Seq<QualityIssueView>) -> bool {
    exists|i: int| 0 <= i < issues.len() && issues[i].severity != QualitySeverity::Info
}

/// Quarantine on a critical issue or a score below the minimum; accept with
/// warnings on any warning or worse; accept otherwise.
pub open spec fn decision_spec(score: int, issues: Seq<QualityIssueView>, min_score: int) -> QualityDecision {
    if has_critical(issues) {
        QualityDecision::Quarantine
    } else if score < min_score {
        QualityDecision::Quarantine
    } else if has_warning(issues) {
        QualityDecision::AcceptWithWarnings
    } else {
        QualityDecision::Accept
    }
}

/// The score never exceeds the confidence it starts from and never goes
/// below zero.
pub proof fn lemma_score_bounded(issues: Seq<QualityIssueView>, confidence: int)
    requires
        confidence >= 0,
    ensures
        0 <= score_spec(issues, confidence) <= confidence,
    decreases issues.len(),
{
    if issues.len() > 0 {
        lemma_score_bounded(issues.drop_last(), confidence);
    }
}

/// Further issues never raise the score.
pub proof fn lemma_score_monotone(issues: Seq<QualityIssueView>, more: Seq<QualityIssueView>, confidence: int)
    requires
        confidence >= 0,
    ensures
        score_spec(issues + more, confidence) <= score_spec(issues, confidence),
    decreases more.len(),
{
    if more.len() == 0 {
        assert(issues + more =~= issues);
    } else {
        lemma_score_monotone(issues, more.drop_last(), confidence);
        assert((issues + more).drop_last() =~= issues + more.drop_last());
        lemma_score_bounded(issues + more.drop_last(), confidence);
    }
}

/// Each issue takes its share off the score, in thousandths: an
/// informational one 10, a warning 50, an error 150, a critical one 300;
/// the score stops at zero.
pub proof fn lemma_score_deductions(issues: Seq<QualityIssueView>, issue: QualityIssueView, confidence: int)
    ensures
        ({
            let before = score_spec(issues, confidence);
            let taken: int = match issue.severity {
                QualitySeverity::Info => 10,
                QualitySeverity::Warning => 50,
                QualitySeverity::Error => 150,
                QualitySeverity::Critical => 300,
            };
            score_spec(issues.push(issue), confidence) == if before - taken < 0 { 0 } else { before - taken }
        }),
{
    assert(issues.push(issue).drop_last() =~= issues);
}

/// A record is quarantined exactly when it has a critical issue or its
/// score is below the minimum; an accepted record (without warnings) has
/// no issue worse than informational.
pub proof fn lemma_decision_rules(score: int, issues: Seq<QualityIssueView>, min_score: int)
    ensures
        (decision_spec(score, issues, min_score) == QualityDecision::Quarantine) <==> (has_critical(issues) || score < min_score),
        decision_spec(score, issues, min_score) == QualityDecision::Accept ==> forall|i: int|
            0 <= i < issues.len() ==> #[trigger] issues[i].severity == QualitySeverity::Info,
{
    if decision_spec(score, issues, min_score) == QualityDecision::Accept {
        assert forall|i: int| 0 <= i < issues.len() implies #[trigger] issues[i].severity == QualitySeverity::Info by {
            if issues[i].severity != QualitySeverity::Info {
                assert(has_warning(issues));
            }
        }
    }
}

/// The view of an optional string slice.
pub open spec fn opt_str_view(o: Option<&str>) -> Option<Seq<char>> {
    match o {
        Some(s) => Some(s@),
        None => None,
    }
}

fn make_issue(
    t: QualityIssueType,
    s: QualitySeverity,
    d: String,
    f: Option<&str>,
    g: Option<&str>,
) -> (r: QualityIssue)
    ensures
        r@ == issue_spec(t, s, d@, opt_str_view(f), opt_str_view(g)),
{
    let field = match f {
        Some(x) => Some(owned(x)),
        None => None,
    };
    let suggestion = match g {
        Some(x) => Some(owned(x)),
        None => None,
    };
    QualityIssue { issue_type: t, severity: s, description: d, field, suggestion }
}

/// `"prefix" + middle + "suffix"` as a string.
fn wrap_text(prefix: &str, middle: &str, suffix: &str) -> (r: String)
    ensures
        r@ == prefix@ + middle@ + suffix@,
{
    let mut r = owned(prefix);
    r.append(middle);
    r.append(suffix);
    r
}

fn event_issue_list(cfg: &QualityGateConfig, e: &Event, today: CalendarDate) -> (r: Vec<QualityIssue>)
    ensures
        issues_view(r@) == event_issues(*cfg, e@, today),
{
    let mut r: Vec<QualityIssue> = Vec::new();
    if is_blank(e.title.as_str()) || e.title.as_str().as_bytes().len() < 3 {
        r.push(make_issue(QualityIssueType::MissingData, QualitySeverity::Error,
            owned("Event title is missing or too short"), Some("title"),
            Some("Event title should be at least 3 characters")));
    }
    let ghost n1 = r@.len();
    if cfg.require_valid_event_dates {
        match (ce_day(e.event_day), ce_day(today)) {
            (Some(ev), Some(td)) => {
                let diff: i64 = ev as i64 - td as i64;
                if diff > cfg.max_future_days {
                    let t = i64_text(diff);
                    r.push(make_issue(QualityIssueType::OutOfRange, QualitySeverity::Warning,
                        wrap_text("Event date is ", t.as_str(), " days in the future"), Some("event_day"),
                        Some("Verify event date is correct")));
                } else if (diff as i128) < -(cfg.max_past_days as i128) {
                    let t = i64_text(-diff);
                    r.push(make_issue(QualityIssueType::OutOfRange, QualitySeverity::Warning,
                        wrap_text("Event date is ", t.as_str(), " days in the past"), Some("event_day"),
                        Some("Verify this is not a historical event")));
                }
            },
            _ => {},
        }
    }
    let ghost n2 = r@.len();
    if e.venue_id == 0 {
        r.push(make_issue(QualityIssueType::MissingData, QualitySeverity::Info,
            owned("Event has placeholder venue_id (will be resolved in conflation)"), Some("venue_id"), None));
    }
    assert(issues_view(r@) =~= event_issues(*cfg, e@, today));
    r
}

fn venue_issue_list(cfg: &QualityGateConfig, v: &Venue) -> (r: Vec<QualityIssue>)
    ensures
        issues_view(r@) == venue_issues(*cfg, v@),
{
    let mut r: Vec<QualityIssue> = Vec::new();
    if is_blank(v.name.as_str()) {
        r.push(make_issue(QualityIssueType::MissingData, QualitySeverity::Critical, owned("Venue name is missing"),
            Some("name"), Some("Venue must have a valid name")));
    }
    let lat = v.latitude as i128;
    let lon = v.longitude as i128;
    if cfg.require_venue_coordinates {
        if -100 < lat - 47_606_200 && lat - 47_606_200 < 100 && -100 < lon + 122_332_100 && lon + 122_332_100 < 100 {
            r.push(make_issue(QualityIssueType::IncompleteGeography, QualitySeverity::Warning,
                owned("Venue using default Seattle coordinates"), Some("coordinates"),
                Some("Provide specific venue address for accurate geocoding")));
        }
        if lat < 47_000_000 || lat > 48_000_000 || lon < -123_000_000 || lon > -121_000_000 {
            r.push(make_issue(QualityIssueType::OutOfRange, QualitySeverity::Error,
                owned("Venue coordinates appear to be outside Seattle area"), Some("coordinates"),
                Some("Verify coordinates are in Seattle region")));
        }
    }
    if is_blank(v.address.as_str()) {
        r.push(make_issue(QualityIssueType::MissingData, QualitySeverity::Warning, owned("Venue address is missing"),
            Some("address"), Some("Address helps with venue identification and geocoding")));
    }
    assert(issues_view(r@) =~= venue_issues(*cfg, v@));
    r
}

fn artist_issue_list(a: &Artist) -> (r: Vec<QualityIssue>)
    ensures
        issues_view(r@) == artist_issues(a@),
{
    let mut r: Vec<QualityIssue> = Vec::new();
    if is_blank(a.name.as_str()) {
        r.push(make_issue(QualityIssueType::MissingData, QualitySeverity::Critical, owned("Artist name is missing"),
            Some("name"), Some("Artist must have a valid name")));
    } else if a.name.as_str().as_bytes().len() < 2 {
        r.push(make_issue(QualityIssueType::SuspiciousValue, QualitySeverity::Warning,
            owned("Artist name is unusually short"), Some("name"), Some("Verify artist name is complete")));
    }
    assert(issues_view(r@) =~= artist_issues(a@));
    r
}

/// A confidence in thousandths as text with two decimals.
pub fn hundredths(x: u32) -> (r: String)
    ensures
        r@ == hundredths_text(x as nat),
{
    let mut r = u64_text((x / 1000) as u64);
    r.append(".");
    proof {
        reveal_strlit(".");
    }
    let a = u64_text(((x % 1000) / 100) as u64);
    r.append(a.as_str());
    let b = u64_text(((x % 100) / 10) as u64);
    r.append(b.as_str());
    r
}

/// The score left of `confidence` after the deductions for `issues`.
pub fn calculate_quality_score(issues: &Vec<QualityIssue>, confidence: u32) -> (r: u32)
    ensures
        r == score_spec(issues_view(issues@), confidence as int),
{
    let ghost iv = issues_view(issues@);
    let mut score: u32 = confidence;
    let mut i: usize = 0;
    while i < issues.len()
        invariant
            i <= issues@.len(),
            iv == issues_view(issues@),
            score == score_spec(iv.subrange(0, i as int), confidence as int),
        decreases issues@.len() - i,
    {
        let d: u32 = match issues[i].severity {
            QualitySeverity::Info => 10,
            QualitySeverity::Warning => 50,
            QualitySeverity::Error => 150,
            QualitySeverity::Critical => 300,
        };
        assert(iv.subrange(0, i + 1).drop_last() =~= iv.subrange(0, i as int));
        score = if score < d { 0 } else { score - d };
        i = i + 1;
    }
    assert(iv.subrange(0, issues@.len() as int) =~= iv);
    score
}

/// The decision for a score and its issues.
pub fn determine_decision(quality_score: u32, issues: &Vec<QualityIssue>, min_quality_score: u32) -> (r: QualityDecision)
    ensures
        r == decision_spec(quality_score as int, issues_view(issues@), min_quality_score as int),
{
    let ghost iv = issues_view(issues@);
    let mut critical = false;
    let mut warning = false;
    let mut i: usize = 0;
    while i < issues.len()
        invariant
            i <= issues@.len(),
            iv == issues_view(issues@),
            critical == (exists|j: int| 0 <= j < i && iv[j].severity == QualitySeverity::Critical),
            warning == (exists|j: int| 0 <= j < i && iv[j].severity != QualitySeverity::Info),
        decreases issues@.len() - i,
    {
        assert(iv[i as int].severity == issues@[i as int].severity);
        match issues[i].severity {
            QualitySeverity::Critical => {
                critical = true;
                warning = true;
            },
            QualitySeverity::Info => {},
            _ => {
                warning = true;
            },
        }
        i = i + 1;
    }
    if critical {
        QualityDecision::Quarantine
    } else if quality_score < min_quality_score {
        QualityDecision::Quarantine
    } else if warning {
        QualityDecision::AcceptWithWarnings
    } else {
        QualityDecision::Accept
    }
}

/// The quality gate with its rules.
pub struct DefaultQualityGate {
    pub config: QualityGateConfig,
}

/// The quality assessment of one record.
#[derive(Debug)]
pub struct QualityAssessment {
    pub decision: QualityDecision,
    /// Thousandths.
    pub quality_score: u32,
    pub issues: Vec<QualityIssue>,
    pub rule_version: String,
}

/// A normalized record with its quality assessment.
#[derive(Debug)]
pub struct QualityAssessedRecord {
    pub normalized_record: NormalizedRecord,
    pub quality_assessment: QualityAssessment,
    /// Milliseconds since the Unix epoch.
    pub assessed_at: i64,
}

/// All issues of a record: metadata first, then the entity's.
pub open spec fn record_issues(cfg: QualityGateConfig, r: NormalizedRecord, today: CalendarDate) -> Seq<QualityIssueView> {
    metadata_issues(cfg, r.normalization.confidence as nat, r.normalization.warnings@.map_values(|w: String| w@))
        + entity_issues(cfg, r.entity@, today)
}

impl DefaultQualityGate {
    /// A quality gate with the default rules.
    pub fn new() -> (r: Self)
        ensures
            r.config.min_confidence == 700,
            r.config.min_quality_score == 600,
            r.config.rule_version@ == "v1.0.0"@,
            r.config.require_venue_coordinates,
            r.config.require_valid_event_dates,
            r.config.max_future_days == 365,
            r.config.max_past_days == 30,
    {
        DefaultQualityGate { config: QualityGateConfig::default_config() }
    }

    /// A quality gate with the given rules.
    pub fn with_config(config: QualityGateConfig) -> (r: Self)
        ensures
            r.config == config,
    {
        DefaultQualityGate { config }
    }

    /// Assesses a record against the rules now: today (UTC) is the reference
    /// day for event dates and the clock gives the time of the assessment.
    pub fn assess(&self, record: NormalizedRecord) -> (r: QualityAssessedRecord)
        ensures
            r.normalized_record == record,
            exists|today: CalendarDate| {
                &&& issues_view(r.quality_assessment.issues@) == record_issues(self.config, record, today)
                &&& r.quality_assessment.quality_score == score_spec(
                    record_issues(self.config, record, today),
                    record.normalization.confidence as int,
                )
                &&& r.quality_assessment.decision == decision_spec(
                    r.quality_assessment.quality_score as int,
                    record_issues(self.config, record, today),
                    self.config.min_quality_score as int,
                )
            },
            r.quality_assessment.rule_version@ == self.config.rule_version@,
    {
        let today = today_utc();
        let at = now_ms();
        self.assess_at(record, today, at)
    }

    /// Assesses a record against the rules, `today` being the reference day
    /// for event dates and `assessed_at` the time of the assessment.
    pub fn assess_at(&self, record: NormalizedRecord, today: CalendarDate, assessed_at: i64) -> (r: QualityAssessedRecord)
        ensures
            r.normalized_record == record,
            r.assessed_at == assessed_at,
            issues_view(r.quality_assessment.issues@) == record_issues(self.config, record, today),
            r.quality_assessment.quality_score == score_spec(
                record_issues(self.config, record, today),
                record.normalization.confidence as int,
            ),
            r.quality_assessment.decision == decision_spec(
                r.quality_assessment.quality_score as int,
                record_issues(self.config, record, today),
                self.config.min_quality_score as int,
            ),
            r.quality_assessment.rule_version@ == self.config.rule_version@,
    {
        let mut issues = self.metadata_issue_list(record.normalization.confidence, &record.normalization.warnings);
        let mut more = match &record.entity {
            NormalizedEntity::Event(e) => event_issue_list(&self.config, e, today),
            NormalizedEntity::Venue(v) => venue_issue_list(&self.config, v),
            NormalizedEntity::Artist(a) => artist_issue_list(a),
        };
        let ghost a = issues@;
        let ghost b = more@;
        issues.append(&mut more);
        assert(issues_view(issues@) =~= issues_view(a) + issues_view(b));
        let quality_score = calculate_quality_score(&issues, record.normalization.confidence);
        let decision = determine_decision(quality_score, &issues, self.config.min_quality_score);
        let assessment = QualityAssessment {
            decision,
            quality_score,
            issues,
            rule_version: self.config.rule_version.clone(),
        };
        QualityAssessedRecord { normalized_record: record, quality_assessment: assessment, assessed_at }
    }

    fn metadata_issue_list(&self, confidence: u32, warnings: &Vec<String>) -> (r: Vec<QualityIssue>)
        ensures
            issues_view(r@) == metadata_issues(self.config, confidence as nat, warnings@.map_values(|w: String| w@)),
    {
        let ghost ws = warnings@.map_values(|w: String| w@);
        let mut r: Vec<QualityIssue> = Vec::new();
        if confidence < self.config.min_confidence {
            let mut d = owned("Normalization confidence ");
            let c = hundredths(confidence);
            d.append(c.as_str());
            d.append(" below threshold ");
            let m = hundredths(self.config.min_confidence);
            d.append(m.as_str());
            r.push(make_issue(QualityIssueType::LowConfidence, QualitySeverity::Warning, d, Some("confidence"),
                Some("Review source data quality")));
        }
        let ghost low = issues_view(r@);
        let mut i: usize = 0;
        while i < warnings.len()
            invariant
                i <= warnings@.len(),
                ws == warnings@.map_values(|w: String| w@),
                issues_view(r@) == low + ws.subrange(0, i as int).map_values(|w: Seq<char>| issue_spec(
                    QualityIssueType::SuspiciousValue, QualitySeverity::Info, "Normalization warning: "@ + w, None, None)),
            decreases warnings@.len() - i,
        {
            let ghost before = issues_view(r@);
            let mut d = owned("Normalization warning: ");
            d.append(warnings[i].as_str());
            r.push(make_issue(QualityIssueType::SuspiciousValue, QualitySeverity::Info, d, None, None));
            assert(issues_view(r@) =~= before.push(issue_spec(QualityIssueType::SuspiciousValue, QualitySeverity::Info,
                "Normalization warning: "@ + ws[i as int], None, None)));
            assert(ws.subrange(0, i + 1) =~= ws.subrange(0, i as int).push(ws[i as int]));
            assert(issues_view(r@) =~= low + ws.subrange(0, i + 1).map_values(|w: Seq<char>| issue_spec(
                QualityIssueType::SuspiciousValue, QualitySeverity::Info, "Normalization warning: "@ + w, None, None)));
            i = i + 1;
        }
        assert(ws.subrange(0, warnings@.len() as int) =~= ws);
        r
    }
}

/// How an event's day is judged against today, when dates are checked: an
/// event more than `max_future_days` days ahead gets an out-of-range warning
/// saying how many days in the future it is; one more than `max_past_days`
/// days back (and not too far ahead) gets one saying how many days in the
/// past it is; any other day raises no out-of-range issue. Days are counted
/// on the Gregorian calendar (the difference of the dates' day numbers).
pub proof fn lemma_event_date_window(cfg: QualityGateConfig, e: EventView, today: CalendarDate)
    requires
        cfg.require_valid_event_dates,
        date_exists(e.event_day.year, e.event_day.month, e.event_day.day),
        date_exists(today.year, today.month, today.day),
    ensures
        ({
            let diff = ce_day_of(e.event_day.year, e.event_day.month, e.event_day.day)->0 - ce_day_of(today.year, today.month,
                today.day)->0;
            let issues = event_issues(cfg, e, today);
            &&& diff > cfg.max_future_days ==> issues.contains(issue_spec(QualityIssueType::OutOfRange, QualitySeverity::Warning,
                "Event date is "@ + signed_decimal_spec(diff) + " days in the future"@, Some("event_day"@),
                Some("Verify event date is correct"@)))
            &&& diff < -cfg.max_past_days && diff <= cfg.max_future_days ==> issues.contains(issue_spec(QualityIssueType::OutOfRange,
                QualitySeverity::Warning, "Event date is "@ + signed_decimal_spec(-diff) + " days in the past"@,
                Some("event_day"@), Some("Verify this is not a historical event"@)))
            &&& -cfg.max_past_days <= diff <= cfg.max_future_days ==> forall|i: int| 0 <= i < issues.len()
                ==> (#[trigger] issues[i]).issue_type != QualityIssueType::OutOfRange
        }),
{
    let ev = ce_day_of(e.event_day.year, e.event_day.month, e.event_day.day);
    let td = ce_day_of(today.year, today.month, today.day);
    let diff = ev->0 - td->0;
    let title: Seq<QualityIssueView> = if blank(e.title) || byte_len(e.title) < 3 {
        seq![issue_spec(QualityIssueType::MissingData, QualitySeverity::Error, "Event title is missing or too short"@,
            Some("title"@), Some("Event title should be at least 3 characters"@))]
    } else {
        Seq::empty()
    };
    let issues = event_issues(cfg, e, today);
    if diff > cfg.max_future_days {
        assert(issues[title.len() as int] == issue_spec(QualityIssueType::OutOfRange, QualitySeverity::Warning,
            "Event date is "@ + signed_decimal_spec(diff) + " days in the future"@, Some("event_day"@),
            Some("Verify event date is correct"@)));
    } else if diff < -cfg.max_past_days {
        assert(issues[title.len() as int] == issue_spec(QualityIssueType::OutOfRange, QualitySeverity::Warning,
            "Event date is "@ + signed_decimal_spec(-diff) + " days in the past"@, Some("event_day"@),
            Some("Verify this is not a historical event"@)));
    } else {
        assert forall|i: int| 0 <= i < issues.len() implies (#[trigger] issues[i]).issue_type != QualityIssueType::OutOfRange by {
            if i < title.len() {
                assert(issues[i] == title[i]);
            }
        }
    }
}

/// How a venue and an artist are judged. A venue with a blank name gets a
/// critical missing-data issue, and one with a blank address a missing-data
/// warning. When coordinates are checked, a venue within 100 millionths of
/// a degree of 47.6062, -122.3321 gets a warning that it uses the default
/// coordinates, and one outside latitude 47..48 or longitude -123..-121 an
/// out-of-range error; a venue inside that area gets no out-of-range issue.
/// An artist with a blank name gets a critical missing-data issue, and one
/// whose name is a single byte a suspicious-value warning.
pub proof fn lemma_venue_and_artist_rules(cfg: QualityGateConfig, v: VenueView, a: ArtistView)
    ensures
        blank(v.name) ==> venue_issues(cfg, v).contains(issue_spec(QualityIssueType::MissingData, QualitySeverity::Critical,
            "Venue name is missing"@, Some("name"@), Some("Venue must have a valid name"@))),
        blank(v.address) ==> venue_issues(cfg, v).contains(issue_spec(QualityIssueType::MissingData, QualitySeverity::Warning,
            "Venue address is missing"@, Some("address"@), Some("Address helps with venue identification and geocoding"@))),
        cfg.require_venue_coordinates && -100 < v.latitude - 47_606_200 < 100 && -100 < v.longitude + 122_332_100 < 100
            ==> venue_issues(cfg, v).contains(issue_spec(QualityIssueType::IncompleteGeography, QualitySeverity::Warning,
            "Venue using default Seattle coordinates"@, Some("coordinates"@),
            Some("Provide specific venue address for accurate geocoding"@))),
        cfg.require_venue_coordinates && (v.latitude < 47_000_000 || v.latitude > 48_000_000 || v.longitude < -123_000_000
            || v.longitude > -121_000_000) ==> venue_issues(cfg, v).contains(issue_spec(QualityIssueType::OutOfRange,
            QualitySeverity::Error, "Venue coordinates appear to be outside Seattle area"@, Some("coordinates"@),
            Some("Verify coordinates are in Seattle region"@))),
        47_000_000 <= v.latitude <= 48_000_000 && -123_000_000 <= v.longitude <= -121_000_000 ==> forall|i: int|
            0 <= i < venue_issues(cfg, v).len() ==> (#[trigger] venue_issues(cfg, v)[i]).issue_type != QualityIssueType::OutOfRange,
        blank(a.name) ==> artist_issues(a) == seq![issue_spec(QualityIssueType::MissingData, QualitySeverity::Critical,
            "Artist name is missing"@, Some("name"@), Some("Artist must have a valid name"@))],
        !blank(a.name) && byte_len(a.name) == 1 ==> artist_issues(a) == seq![issue_spec(QualityIssueType::SuspiciousValue,
            QualitySeverity::Warning, "Artist name is unusually short"@, Some("name"@), Some("Verify artist name is complete"@))],
{
    let name: Seq<QualityIssueView> = if blank(v.name) {
        seq![issue_spec(QualityIssueType::MissingData, QualitySeverity::Critical, "Venue name is missing"@,
            Some("name"@), Some("Venue must have a valid name"@))]
    } else {
        Seq::empty()
    };
    let placeholder: Seq<QualityIssueView> = if cfg.require_venue_coordinates && default_coordinates(
        v.latitude as int,
        v.longitude as int,
    ) {
        seq![issue_spec(QualityIssueType::IncompleteGeography, QualitySeverity::Warning,
            "Venue using default Seattle coordinates"@, Some("coordinates"@),
            Some("Provide specific venue address for accurate geocoding"@))]
    } else {
        Seq::empty()
    };
    let area: Seq<QualityIssueView> = if cfg.require_venue_coordinates && outside_area(v.latitude as int, v.longitude as int) {
        seq![issue_spec(QualityIssueType::OutOfRange, QualitySeverity::Error,
            "Venue coordinates appear to be outside Seattle area"@, Some("coordinates"@),
            Some("Verify coordinates are in Seattle region"@))]
    } else {
        Seq::empty()
    };
    let address: Seq<QualityIssueView> = if blank(v.address) {
        seq![issue_spec(QualityIssueType::MissingData, QualitySeverity::Warning, "Venue address is missing"@,
            Some("address"@), Some("Address helps with venue identification and geocoding"@))]
    } else {
        Seq::empty()
    };
    let issues = venue_issues(cfg, v);
    assert(issues == name + placeholder + area + address);
    if blank(v.name) {
        assert(issues[0] == name[0]);
    }
    if cfg.require_venue_coordinates && default_coordinates(v.latitude as int, v.longitude as int) {
        assert(issues[name.len() as int] == placeholder[0]);
    }
    if cfg.require_venue_coordinates && outside_area(v.latitude as int, v.longitude as int) {
        assert(issues[name.len() + placeholder.len() as int] == area[0]);
    }
    if blank(v.address) {
        assert(issues[name.len() + placeholder.len() + area.len() as int] == address[0]);
    }
    if !outside_area(v.latitude as int, v.longitude as int) {
        assert forall|i: int| 0 <= i < issues.len() implies (#[trigger] issues[i]).issue_type != QualityIssueType::OutOfRange by {
            if i < name.len() {
                assert(issues[i] == name[i]);
            } else if i < name.len() + placeholder.len() {
                assert(issues[i] == placeholder[i - name.len()]);
            } else {
                assert(area.len() == 0);
                assert(issues[i] == address[i - name.len() - placeholder.len()]);
            }
        }
    }
}

/// An event whose title is blank or shorter than three bytes gets a
/// missing-data error naming the title, and an event whose venue is still
/// the placeholder (id zero) gets an informational note that the venue
/// will be resolved in conflation; an event with neither, and no date to
/// judge, has no issue at all.
pub proof fn lemma_event_title_and_venue(cfg: QualityGateConfig, e: EventView, today: CalendarDate)
    ensures
        blank(e.title) || byte_len(e.title) < 3 ==> event_issues(cfg, e, today)[0] == issue_spec(QualityIssueType::MissingData,
            QualitySeverity::Error, "Event title is missing or too short"@, Some("title"@),
            Some("Event title should be at least 3 characters"@)),
        e.venue_id == 0 ==> event_issues(cfg, e, today).last() == issue_spec(QualityIssueType::MissingData, QualitySeverity::Info,
            "Event has placeholder venue_id (will be resolved in conflation)"@, Some("venue_id"@), None),
        !(blank(e.title) || byte_len(e.title) < 3) && e.venue_id != 0 && !cfg.require_valid_event_dates
            ==> event_issues(cfg, e, today).len() == 0,
{
    let issues = event_issues(cfg, e, today);
    if e.venue_id == 0 {
        assert(issues.len() > 0);
    }
}

} // verus!
