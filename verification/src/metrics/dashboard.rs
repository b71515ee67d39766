//! Grafana dashboard description generated from the metric catalog: the
//! metric definitions and the placement of their panels.

use crate::metrics::views_of;
use crate::text::{chars_of, contains_spec, contains_str, lowercase_of, opt_view, owned, to_lowercase, to_uppercase, uppercase_of};
use vstd::prelude::*;
use vstd::string::*;

verus! {

/// The kind of metric a panel shows.
#[derive(Debug, Clone, Copy, PartialEq, Eq, Structural)]
pub enum MetricType {
    Counter,
    Histogram,
    Gauge,
}

/// A metric shown on the dashboard.
#[derive(Debug)]
pub struct MetricDef {
    pub name: String,
    pub metric_type: MetricType,
    pub description: String,
    pub unit: Option<String>,
    pub phase: String,
}

/// The mathematical content of a [`MetricDef`].
#[verifier::ext_equal]
pub struct MetricDefView {
    pub name: Seq<char>,
    pub metric_type: MetricType,
    pub description: Seq<char>,
    pub unit: Option<Seq<char>>,
    pub phase: Seq<char>,
}

impl View for MetricDef {
    type V = MetricDefView;

    open spec fn view(&self) -> MetricDefView {
        MetricDefView {
            name: self.name@,
            metric_type: self.metric_type,
            description: self.description@,
            unit: opt_view(self.unit),
            phase: self.phase@,
        }
    }
}

/// A metric definition with the given fields.
pub open spec fn def_view(
    name: Seq<char>,
    metric_type: MetricType,
    description: Seq<char>,
    unit: Option<Seq<char>>,
    phase: Seq<char>,
) -> MetricDefView {
    MetricDefView { name, metric_type, description, unit, phase }
}

/// Builds a metric definition from string slices.
pub fn metric_def(name: &str, metric_type: MetricType, description: &str, unit: Option<&str>, phase: &str) -> (r: MetricDef)
    ensures
        r@ == def_view(name@, metric_type, description@, match unit { Some(u) => Some(u@), None => None }, phase@),
{
    let u = match unit {
        Some(t) => Some(owned(t)),
        None => None,
    };
    MetricDef { name: owned(name), metric_type, description: owned(description), unit: u, phase: owned(phase) }
}

/// The metrics of the pipeline catalog, by name.
#[derive(Debug, Clone, Copy, PartialEq, Eq, Structural)]
pub enum MetricName {
    SourcesRequestsSuccess,
    SourcesRequestsError,
    SourcesRequestDuration,
    SourcesPayloadBytes,
    SourcesRegistryLoadsSuccess,
    GatewayEnvelopesAccepted,
    GatewayEnvelopesDeduplicated,
    GatewayCasWritesSuccess,
    GatewayRecordsIngested,
    GatewayProcessingDuration,
    GatewayBytesIngested,
    IngestLogWritesSuccess,
    IngestLogWriteBytes,
    IngestLogCurrentFileBytes,
    ParserParseSuccess,
    ParserParseError,
    ParserDuration,
    ParserRecordsExtracted,
    ParserBatchSize,
    NormalizeRecordsProcessed,
    NormalizeConfidence,
    NormalizeGeocoding,
    NormalizeWarnings,
    NormalizeBatchesProcessed,
    NormalizeBatchSize,
    QualityGateRecordsAccepted,
    QualityGateRecordsAcceptedWithWarnings,
    QualityGateRecordsQuarantined,
    QualityGateQualityScore,
    QualityGateIssuesDetected,
    QualityGateBatchesProcessed,
    QualityGateBatchSize,
}

/// The definition of a metric of the catalog.
#[verifier::opaque]
pub open spec fn name_def(m: MetricName) -> MetricDefView {
    match m {
        MetricName::SourcesRequestsSuccess => def_view("sms_sources_requests_success_total"@, MetricType::Counter, "Total successful source requests"@, None, "sources"@),
        MetricName::SourcesRequestsError => def_view("sms_sources_requests_error_total"@, MetricType::Counter, "Total failed source requests"@, None, "sources"@),
        MetricName::SourcesRequestDuration => def_view("sms_sources_request_duration_seconds"@, MetricType::Histogram, "Request duration in seconds"@, Some("s"@), "sources"@),
        MetricName::SourcesPayloadBytes => def_view("sms_sources_payload_bytes"@, MetricType::Histogram, "Payload size in bytes"@, Some("bytes"@), "sources"@),
        MetricName::SourcesRegistryLoadsSuccess => def_view("sms_sources_registry_loads_success_total"@, MetricType::Counter, "Successful registry loads"@, None, "sources"@),
        MetricName::GatewayEnvelopesAccepted => def_view("sms_gateway_envelopes_accepted_total"@, MetricType::Counter, "Total envelopes accepted"@, None, "gateway"@),
        MetricName::GatewayEnvelopesDeduplicated => def_view("sms_gateway_envelopes_deduplicated_total"@, MetricType::Counter, "Total envelopes deduplicated"@, None, "gateway"@),
        MetricName::GatewayCasWritesSuccess => def_view("sms_gateway_cas_writes_success_total"@, MetricType::Counter, "Successful CAS writes"@, None, "gateway"@),
        MetricName::GatewayRecordsIngested => def_view("sms_gateway_records_ingested_total"@, MetricType::Counter, "Total records ingested"@, None, "gateway"@),
        MetricName::GatewayProcessingDuration => def_view("sms_gateway_processing_duration_seconds"@, MetricType::Histogram, "Gateway processing duration"@, Some("s"@), "gateway"@),
        MetricName::GatewayBytesIngested => def_view("sms_gateway_bytes_ingested"@, MetricType::Histogram, "Bytes ingested per source"@, Some("bytes"@), "gateway"@),
        MetricName::IngestLogWritesSuccess => def_view("sms_ingest_log_writes_success_total"@, MetricType::Counter, "Successful log writes"@, None, "ingest_log"@),
        MetricName::IngestLogWriteBytes => def_view("sms_ingest_log_write_bytes"@, MetricType::Histogram, "Log write size"@, Some("bytes"@), "ingest_log"@),
        MetricName::IngestLogCurrentFileBytes => def_view("sms_ingest_log_current_file_bytes"@, MetricType::Gauge, "Current log file size"@, Some("bytes"@), "ingest_log"@),
        MetricName::ParserParseSuccess => def_view("sms_parser_parse_success_total"@, MetricType::Counter, "Successful parses"@, None, "parser"@),
        MetricName::ParserParseError => def_view("sms_parser_parse_error_total"@, MetricType::Counter, "Parse errors"@, None, "parser"@),
        MetricName::ParserDuration => def_view("sms_parser_duration_seconds"@, MetricType::Histogram, "Parse duration"@, Some("s"@), "parser"@),
        MetricName::ParserRecordsExtracted => def_view("sms_parser_records_extracted_total"@, MetricType::Counter, "Records extracted"@, None, "parser"@),
        MetricName::ParserBatchSize => def_view("sms_parser_batch_size"@, MetricType::Histogram, "Parse batch size"@, None, "parser"@),
        MetricName::NormalizeRecordsProcessed => def_view("sms_normalize_records_processed_total"@, MetricType::Counter, "Records processed with normalization"@, None, "normalize"@),
        MetricName::NormalizeConfidence => def_view("sms_normalize_confidence"@, MetricType::Histogram, "Normalization confidence level"@, None, "normalize"@),
        MetricName::NormalizeGeocoding => def_view("sms_normalize_geocoding_total"@, MetricType::Counter, "Geocoding operations performed"@, None, "normalize"@),
        MetricName::NormalizeWarnings => def_view("sms_normalize_warnings_total"@, MetricType::Counter, "Normalization warnings"@, None, "normalize"@),
        MetricName::NormalizeBatchesProcessed => def_view("sms_normalize_batches_processed_total"@, MetricType::Counter, "Batches processed"@, None, "normalize"@),
        MetricName::NormalizeBatchSize => def_view("sms_normalize_batch_size"@, MetricType::Histogram, "Normalization batch size"@, None, "normalize"@),
        MetricName::QualityGateRecordsAccepted => def_view("sms_quality_gate_records_accepted_total"@, MetricType::Counter, "Records accepted by quality gate"@, None, "quality_gate"@),
        MetricName::QualityGateRecordsAcceptedWithWarnings => def_view("sms_quality_gate_records_accepted_with_warnings_total"@, MetricType::Counter, "Records accepted with warnings"@, None, "quality_gate"@),
        MetricName::QualityGateRecordsQuarantined => def_view("sms_quality_gate_records_quarantined_total"@, MetricType::Counter, "Records quarantined by quality gate"@, None, "quality_gate"@),
        MetricName::QualityGateQualityScore => def_view("sms_quality_gate_quality_score"@, MetricType::Histogram, "Quality score distribution"@, None, "quality_gate"@),
        MetricName::QualityGateIssuesDetected => def_view("sms_quality_gate_issues_detected_total"@, MetricType::Counter, "Quality issues detected"@, None, "quality_gate"@),
        MetricName::QualityGateBatchesProcessed => def_view("sms_quality_gate_batches_processed_total"@, MetricType::Counter, "Batches processed through quality gate"@, None, "quality_gate"@),
        MetricName::QualityGateBatchSize => def_view("sms_quality_gate_batch_size"@, MetricType::Histogram, "Quality gate batch size"@, None, "quality_gate"@),
    }
}

/// Every metric of the catalog, in panel order.
pub open spec fn catalog_names() -> Seq<MetricName> {
    seq![
        MetricName::SourcesRequestsSuccess,
        MetricName::SourcesRequestsError,
        MetricName::SourcesRequestDuration,
        MetricName::SourcesPayloadBytes,
        MetricName::SourcesRegistryLoadsSuccess,
        MetricName::GatewayEnvelopesAccepted,
        MetricName::GatewayEnvelopesDeduplicated,
        MetricName::GatewayCasWritesSuccess,
        MetricName::GatewayRecordsIngested,
        MetricName::GatewayProcessingDuration,
        MetricName::GatewayBytesIngested,
        MetricName::IngestLogWritesSuccess,
        MetricName::IngestLogWriteBytes,
        MetricName::IngestLogCurrentFileBytes,
        MetricName::ParserParseSuccess,
        MetricName::ParserParseError,
        MetricName::ParserDuration,
        MetricName::ParserRecordsExtracted,
        MetricName::ParserBatchSize,
        MetricName::NormalizeRecordsProcessed,
        MetricName::NormalizeConfidence,
        MetricName::NormalizeGeocoding,
        MetricName::NormalizeWarnings,
        MetricName::NormalizeBatchesProcessed,
        MetricName::NormalizeBatchSize,
        MetricName::QualityGateRecordsAccepted,
        MetricName::QualityGateRecordsAcceptedWithWarnings,
        MetricName::QualityGateRecordsQuarantined,
        MetricName::QualityGateQualityScore,
        MetricName::QualityGateIssuesDetected,
        MetricName::QualityGateBatchesProcessed,
        MetricName::QualityGateBatchSize,
    ]
}

/// The metric catalog of the pipeline dashboard, in panel order: the
/// sources, gateway, ingest log, parser, normalize and quality gate phases.
pub open spec fn catalog_spec() -> Seq<MetricDefView> {
    catalog_names().map_values(|m: MetricName| name_def(m))
}

/// The definition of `SourcesRequestsSuccess`.
fn def_sources_requests_success() -> (r: MetricDef)
    ensures
        r@ == name_def(MetricName::SourcesRequestsSuccess),
{
    reveal(name_def);
    metric_def("sms_sources_requests_success_total", MetricType::Counter, "Total successful source requests", None, "sources")
}

/// The definition of `SourcesRequestsError`.
fn def_sources_requests_error() -> (r: MetricDef)
    ensures
        r@ == name_def(MetricName::SourcesRequestsError),
{
    reveal(name_def);
    metric_def("sms_sources_requests_error_total", MetricType::Counter, "Total failed source requests", None, "sources")
}

/// The definition of `SourcesRequestDuration`.
fn def_sources_request_duration() -> (r: MetricDef)
    ensures
        r@ == name_def(MetricName::SourcesRequestDuration),
{
    reveal(name_def);
    metric_def("sms_sources_request_duration_seconds", MetricType::Histogram, "Request duration in seconds", Some("s"), "sources")
}

/// The definition of `SourcesPayloadBytes`.
fn def_sources_payload_bytes() -> (r: MetricDef)
    ensures
        r@ == name_def(MetricName::SourcesPayloadBytes),
{
    reveal(name_def);
    metric_def("sms_sources_payload_bytes", MetricType::Histogram, "Payload size in bytes", Some("bytes"), "sources")
}

/// The definition of `SourcesRegistryLoadsSuccess`.
fn def_sources_registry_loads_success() -> (r: MetricDef)
    ensures
        r@ == name_def(MetricName::SourcesRegistryLoadsSuccess),
{
    reveal(name_def);
    metric_def("sms_sources_registry_loads_success_total", MetricType::Counter, "Successful registry loads", None, "sources")
}

/// The definition of `GatewayEnvelopesAccepted`.
fn def_gateway_envelopes_accepted() -> (r: MetricDef)
    ensures
        r@ == name_def(MetricName::GatewayEnvelopesAccepted),
{
    reveal(name_def);
    metric_def("sms_gateway_envelopes_accepted_total", MetricType::Counter, "Total envelopes accepted", None, "gateway")
}

/// The definition of `GatewayEnvelopesDeduplicated`.
fn def_gateway_envelopes_deduplicated() -> (r: MetricDef)
    ensures
        r@ == name_def(MetricName::GatewayEnvelopesDeduplicated),
{
    reveal(name_def);
    metric_def("sms_gateway_envelopes_deduplicated_total", MetricType::Counter, "Total envelopes deduplicated", None, "gateway")
}

/// The definition of `GatewayCasWritesSuccess`.
fn def_gateway_cas_writes_success() -> (r: MetricDef)
    ensures
        r@ == name_def(MetricName::GatewayCasWritesSuccess),
{
    reveal(name_def);
    metric_def("sms_gateway_cas_writes_success_total", MetricType::Counter, "Successful CAS writes", None, "gateway")
}

/// The definition of `GatewayRecordsIngested`.
fn def_gateway_records_ingested() -> (r: MetricDef)
    ensures
        r@ == name_def(MetricName::GatewayRecordsIngested),
{
    reveal(name_def);
    metric_def("sms_gateway_records_ingested_total", MetricType::Counter, "Total records ingested", None, "gateway")
}

/// The definition of `GatewayProcessingDuration`.
fn def_gateway_processing_duration() -> (r: MetricDef)
    ensures
        r@ == name_def(MetricName::GatewayProcessingDuration),
{
    reveal(name_def);
    metric_def("sms_gateway_processing_duration_seconds", MetricType::Histogram, "Gateway processing duration", Some("s"), "gateway")
}

/// The definition of `GatewayBytesIngested`.
fn def_gateway_bytes_ingested() -> (r: MetricDef)
    ensures
        r@ == name_def(MetricName::GatewayBytesIngested),
{
    reveal(name_def);
    metric_def("sms_gateway_bytes_ingested", MetricType::Histogram, "Bytes ingested per source", Some("bytes"), "gateway")
}

/// The definition of `IngestLogWritesSuccess`.
fn def_ingest_log_writes_success() -> (r: MetricDef)
    ensures
        r@ == name_def(MetricName::IngestLogWritesSuccess),
{
    reveal(name_def);
    metric_def("sms_ingest_log_writes_success_total", MetricType::Counter, "Successful log writes", None, "ingest_log")
}

/// The definition of `IngestLogWriteBytes`.
fn def_ingest_log_write_bytes() -> (r: MetricDef)
    ensures
        r@ == name_def(MetricName::IngestLogWriteBytes),
{
    reveal(name_def);
    metric_def("sms_ingest_log_write_bytes", MetricType::Histogram, "Log write size", Some("bytes"), "ingest_log")
}

/// The definition of `IngestLogCurrentFileBytes`.
fn def_ingest_log_current_file_bytes() -> (r: MetricDef)
    ensures
        r@ == name_def(MetricName::IngestLogCurrentFileBytes),
{
    reveal(name_def);
    metric_def("sms_ingest_log_current_file_bytes", MetricType::Gauge, "Current log file size", Some("bytes"), "ingest_log")
}

/// The definition of `ParserParseSuccess`.
fn def_parser_parse_success() -> (r: MetricDef)
    ensures
        r@ == name_def(MetricName::ParserParseSuccess),
{
    reveal(name_def);
    metric_def("sms_parser_parse_success_total", MetricType::Counter, "Successful parses", None, "parser")
}

/// The definition of `ParserParseError`.
fn def_parser_parse_error() -> (r: MetricDef)
    ensures
        r@ == name_def(MetricName::ParserParseError),
{
    reveal(name_def);
    metric_def("sms_parser_parse_error_total", MetricType::Counter, "Parse errors", None, "parser")
}

/// The definition of `ParserDuration`.
fn def_parser_duration() -> (r: MetricDef)
    ensures
        r@ == name_def(MetricName::ParserDuration),
{
    reveal(name_def);
    metric_def("sms_parser_duration_seconds", MetricType::Histogram, "Parse duration", Some("s"), "parser")
}

/// The definition of `ParserRecordsExtracted`.
fn def_parser_records_extracted() -> (r: MetricDef)
    ensures
        r@ == name_def(MetricName::ParserRecordsExtracted),
{
    reveal(name_def);
    metric_def("sms_parser_records_extracted_total", MetricType::Counter, "Records extracted", None, "parser")
}

/// The definition of `ParserBatchSize`.
fn def_parser_batch_size() -> (r: MetricDef)
    ensures
        r@ == name_def(MetricName::ParserBatchSize),
{
    reveal(name_def);
    metric_def("sms_parser_batch_size", MetricType::Histogram, "Parse batch size", None, "parser")
}

/// The definition of `NormalizeRecordsProcessed`.
fn def_normalize_records_processed() -> (r: MetricDef)
    ensures
        r@ == name_def(MetricName::NormalizeRecordsProcessed),
{
    reveal(name_def);
    metric_def("sms_normalize_records_processed_total", MetricType::Counter, "Records processed with normalization", None, "normalize")
}

/// The definition of `NormalizeConfidence`.
fn def_normalize_confidence() -> (r: MetricDef)
    ensures
        r@ == name_def(MetricName::NormalizeConfidence),
{
    reveal(name_def);
    metric_def("sms_normalize_confidence", MetricType::Histogram, "Normalization confidence level", None, "normalize")
}

/// The definition of `NormalizeGeocoding`.
fn def_normalize_geocoding() -> (r: MetricDef)
    ensures
        r@ == name_def(MetricName::NormalizeGeocoding),
{
    reveal(name_def);
    metric_def("sms_normalize_geocoding_total", MetricType::Counter, "Geocoding operations performed", None, "normalize")
}

/// The definition of `NormalizeWarnings`.
fn def_normalize_warnings() -> (r: MetricDef)
    ensures
        r@ == name_def(MetricName::NormalizeWarnings),
{
    reveal(name_def);
    metric_def("sms_normalize_warnings_total", MetricType::Counter, "Normalization warnings", None, "normalize")
}

/// The definition of `NormalizeBatchesProcessed`.
fn def_normalize_batches_processed() -> (r: MetricDef)
    ensures
        r@ == name_def(MetricName::NormalizeBatchesProcessed),
{
    reveal(name_def);
    metric_def("sms_normalize_batches_processed_total", MetricType::Counter, "Batches processed", None, "normalize")
}

/// The definition of `NormalizeBatchSize`.
fn def_normalize_batch_size() -> (r: MetricDef)
    ensures
        r@ == name_def(MetricName::NormalizeBatchSize),
{
    reveal(name_def);
    metric_def("sms_normalize_batch_size", MetricType::Histogram, "Normalization batch size", None, "normalize")
}

/// The definition of `QualityGateRecordsAccepted`.
fn def_quality_gate_records_accepted() -> (r: MetricDef)
    ensures
        r@ == name_def(MetricName::QualityGateRecordsAccepted),
{
    reveal(name_def);
    metric_def("sms_quality_gate_records_accepted_total", MetricType::Counter, "Records accepted by quality gate", None, "quality_gate")
}

/// The definition of `QualityGateRecordsAcceptedWithWarnings`.
fn def_quality_gate_records_accepted_with_warnings() -> (r: MetricDef)
    ensures
        r@ == name_def(MetricName::QualityGateRecordsAcceptedWithWarnings),
{
    reveal(name_def);
    metric_def("sms_quality_gate_records_accepted_with_warnings_total", MetricType::Counter, "Records accepted with warnings", None, "quality_gate")
}

/// The definition of `QualityGateRecordsQuarantined`.
fn def_quality_gate_records_quarantined() -> (r: MetricDef)
    ensures
        r@ == name_def(MetricName::QualityGateRecordsQuarantined),
{
    reveal(name_def);
    metric_def("sms_quality_gate_records_quarantined_total", MetricType::Counter, "Records quarantined by quality gate", None, "quality_gate")
}

/// The definition of `QualityGateQualityScore`.
fn def_quality_gate_quality_score() -> (r: MetricDef)
    ensures
        r@ == name_def(MetricName::QualityGateQualityScore),
{
    reveal(name_def);
    metric_def("sms_quality_gate_quality_score", MetricType::Histogram, "Quality score distribution", None, "quality_gate")
}

/// The definition of `QualityGateIssuesDetected`.
fn def_quality_gate_issues_detected() -> (r: MetricDef)
    ensures
        r@ == name_def(MetricName::QualityGateIssuesDetected),
{
    reveal(name_def);
    metric_def("sms_quality_gate_issues_detected_total", MetricType::Counter, "Quality issues detected", None, "quality_gate")
}

/// The definition of `QualityGateBatchesProcessed`.
fn def_quality_gate_batches_processed() -> (r: MetricDef)
    ensures
        r@ == name_def(MetricName::QualityGateBatchesProcessed),
{
    reveal(name_def);
    metric_def("sms_quality_gate_batches_processed_total", MetricType::Counter, "Batches processed through quality gate", None, "quality_gate")
}

/// The definition of `QualityGateBatchSize`.
fn def_quality_gate_batch_size() -> (r: MetricDef)
    ensures
        r@ == name_def(MetricName::QualityGateBatchSize),
{
    reveal(name_def);
    metric_def("sms_quality_gate_batch_size", MetricType::Histogram, "Quality gate batch size", None, "quality_gate")
}

impl MetricName {
    /// Every metric, in catalog order.
    #[verifier::rlimit(40)]
    pub fn all_metrics() -> (r: Vec<MetricName>)
        ensures
            r@ == catalog_names(),
    {
        let mut r: Vec<MetricName> = Vec::new();
        r.push(MetricName::SourcesRequestsSuccess);
        r.push(MetricName::SourcesRequestsError);
        r.push(MetricName::SourcesRequestDuration);
        r.push(MetricName::SourcesPayloadBytes);
        r.push(MetricName::SourcesRegistryLoadsSuccess);
        r.push(MetricName::GatewayEnvelopesAccepted);
        r.push(MetricName::GatewayEnvelopesDeduplicated);
        r.push(MetricName::GatewayCasWritesSuccess);
        r.push(MetricName::GatewayRecordsIngested);
        r.push(MetricName::GatewayProcessingDuration);
        r.push(MetricName::GatewayBytesIngested);
        r.push(MetricName::IngestLogWritesSuccess);
        r.push(MetricName::IngestLogWriteBytes);
        r.push(MetricName::IngestLogCurrentFileBytes);
        r.push(MetricName::ParserParseSuccess);
        r.push(MetricName::ParserParseError);
        r.push(MetricName::ParserDuration);
        r.push(MetricName::ParserRecordsExtracted);
        r.push(MetricName::ParserBatchSize);
        r.push(MetricName::NormalizeRecordsProcessed);
        r.push(MetricName::NormalizeConfidence);
        r.push(MetricName::NormalizeGeocoding);
        r.push(MetricName::NormalizeWarnings);
        r.push(MetricName::NormalizeBatchesProcessed);
        r.push(MetricName::NormalizeBatchSize);
        r.push(MetricName::QualityGateRecordsAccepted);
        r.push(MetricName::QualityGateRecordsAcceptedWithWarnings);
        r.push(MetricName::QualityGateRecordsQuarantined);
        r.push(MetricName::QualityGateQualityScore);
        r.push(MetricName::QualityGateIssuesDetected);
        r.push(MetricName::QualityGateBatchesProcessed);
        r.push(MetricName::QualityGateBatchSize);
        assert(r@ =~= catalog_names());
        r
    }

    /// The metric's definition: its name, type, description, unit and phase.
    pub fn definition(&self) -> (r: MetricDef)
        ensures
            r@ == name_def(*self),
    {
        match self {
            MetricName::SourcesRequestsSuccess => def_sources_requests_success(),
            MetricName::SourcesRequestsError => def_sources_requests_error(),
            MetricName::SourcesRequestDuration => def_sources_request_duration(),
            MetricName::SourcesPayloadBytes => def_sources_payload_bytes(),
            MetricName::SourcesRegistryLoadsSuccess => def_sources_registry_loads_success(),
            MetricName::GatewayEnvelopesAccepted => def_gateway_envelopes_accepted(),
            MetricName::GatewayEnvelopesDeduplicated => def_gateway_envelopes_deduplicated(),
            MetricName::GatewayCasWritesSuccess => def_gateway_cas_writes_success(),
            MetricName::GatewayRecordsIngested => def_gateway_records_ingested(),
            MetricName::GatewayProcessingDuration => def_gateway_processing_duration(),
            MetricName::GatewayBytesIngested => def_gateway_bytes_ingested(),
            MetricName::IngestLogWritesSuccess => def_ingest_log_writes_success(),
            MetricName::IngestLogWriteBytes => def_ingest_log_write_bytes(),
            MetricName::IngestLogCurrentFileBytes => def_ingest_log_current_file_bytes(),
            MetricName::ParserParseSuccess => def_parser_parse_success(),
            MetricName::ParserParseError => def_parser_parse_error(),
            MetricName::ParserDuration => def_parser_duration(),
            MetricName::ParserRecordsExtracted => def_parser_records_extracted(),
            MetricName::ParserBatchSize => def_parser_batch_size(),
            MetricName::NormalizeRecordsProcessed => def_normalize_records_processed(),
            MetricName::NormalizeConfidence => def_normalize_confidence(),
            MetricName::NormalizeGeocoding => def_normalize_geocoding(),
            MetricName::NormalizeWarnings => def_normalize_warnings(),
            MetricName::NormalizeBatchesProcessed => def_normalize_batches_processed(),
            MetricName::NormalizeBatchSize => def_normalize_batch_size(),
            MetricName::QualityGateRecordsAccepted => def_quality_gate_records_accepted(),
            MetricName::QualityGateRecordsAcceptedWithWarnings => def_quality_gate_records_accepted_with_warnings(),
            MetricName::QualityGateRecordsQuarantined => def_quality_gate_records_quarantined(),
            MetricName::QualityGateQualityScore => def_quality_gate_quality_score(),
            MetricName::QualityGateIssuesDetected => def_quality_gate_issues_detected(),
            MetricName::QualityGateBatchesProcessed => def_quality_gate_batches_processed(),
            MetricName::QualityGateBatchSize => def_quality_gate_batch_size(),
        }
    }
}

/// The metric catalog of the first pipeline dashboard, in panel order: the
/// sources, gateway, ingest log and parser phases.
pub open spec fn legacy_catalog_spec() -> Seq<MetricDefView> {
    seq![
        def_view("sms_sources_requests_success_total"@, MetricType::Counter, "Total successful source requests"@, None, "sources"@),
        def_view("sms_sources_requests_error_total"@, MetricType::Counter, "Total failed source requests"@, None, "sources"@),
        def_view("sms_sources_request_duration_seconds"@, MetricType::Histogram, "Request duration in seconds"@, Some("s"@), "sources"@),
        def_view("sms_sources_payload_bytes"@, MetricType::Histogram, "Payload size in bytes"@, Some("bytes"@), "sources"@),
        def_view("sms_sources_registry_loads_success_total"@, MetricType::Counter, "Successful registry loads"@, None, "sources"@),
        def_view("sms_gateway_envelopes_accepted_total"@, MetricType::Counter, "Total envelopes accepted"@, None, "gateway"@),
        def_view("sms_gateway_envelopes_deduplicated_total"@, MetricType::Counter, "Total envelopes deduplicated"@, None, "gateway"@),
        def_view("sms_gateway_cas_writes_success_total"@, MetricType::Counter, "Successful CAS writes"@, None, "gateway"@),
        def_view("sms_gateway_processing_duration_seconds"@, MetricType::Histogram, "Gateway processing duration"@, Some("s"@), "gateway"@),
        def_view("sms_gateway_bytes_ingested"@, MetricType::Histogram, "Bytes ingested per source"@, Some("bytes"@), "gateway"@),
        def_view("sms_ingest_log_writes_success_total"@, MetricType::Counter, "Successful log writes"@, None, "ingest_log"@),
        def_view("sms_ingest_log_write_bytes"@, MetricType::Histogram, "Log write size"@, Some("bytes"@), "ingest_log"@),
        def_view("sms_ingest_log_current_file_bytes"@, MetricType::Gauge, "Current log file size"@, Some("bytes"@), "ingest_log"@),
        def_view("sms_parser_parse_success_total"@, MetricType::Counter, "Successful parses"@, None, "parser"@),
        def_view("sms_parser_parse_error_total"@, MetricType::Counter, "Parse errors"@, None, "parser"@),
        def_view("sms_parser_duration_seconds"@, MetricType::Histogram, "Parse duration"@, Some("s"@), "parser"@),
        def_view("sms_parser_records_extracted_total"@, MetricType::Counter, "Records extracted"@, None, "parser"@),
        def_view("sms_parser_batch_size"@, MetricType::Histogram, "Parse batch size"@, None, "parser"@),
    ]
}


/// Strict lexicographic order on character sequences (by code point), the
/// order of `String` comparison.
pub open spec fn lex_lt(a: Seq<char>, b: Seq<char>) -> bool
    decreases a.len(),
{
    if a.len() == 0 {
        b.len() > 0
    } else if b.len() == 0 {
        false
    } else if (a[0] as u32) < (b[0] as u32) {
        true
    } else if a[0] == b[0] {
        lex_lt(a.drop_first(), b.drop_first())
    } else {
        false
    }
}

/// No sequence precedes itself.
pub proof fn lemma_lex_irreflexive(a: Seq<char>)
    ensures
        !lex_lt(a, a),
    decreases a.len(),
{
    if a.len() > 0 {
        lemma_lex_irreflexive(a.drop_first());
    }
}

/// Two different sequences are ordered one way or the other.
pub proof fn lemma_lex_total(a: Seq<char>, b: Seq<char>)
    requires
        a != b,
    ensures
        lex_lt(a, b) || lex_lt(b, a),
    decreases a.len(),
{
    if a.len() > 0 && b.len() > 0 && a[0] == b[0] {
        if a.drop_first() == b.drop_first() {
            assert(a =~= seq![a[0]] + a.drop_first());
            assert(b =~= seq![b[0]] + b.drop_first());
        }
        lemma_lex_total(a.drop_first(), b.drop_first());
    } else if a.len() == 0 && b.len() == 0 {
        assert(a =~= b);
    } else if a.len() > 0 && b.len() > 0 {
        vstd::utf8::char_u32_cast(a[0], a[0] as u32);
        vstd::utf8::char_u32_cast(b[0], b[0] as u32);
        assert((a[0] as u32) != (b[0] as u32));
    }
}

/// The order is transitive.
pub proof fn lemma_lex_transitive(a: Seq<char>, b: Seq<char>, c: Seq<char>)
    requires
        lex_lt(a, b),
        lex_lt(b, c),
    ensures
        lex_lt(a, c),
    decreases a.len(),
{
    if a.len() > 0 && b.len() > 0 && c.len() > 0 && a[0] == b[0] && b[0] == c[0] {
        lemma_lex_transitive(a.drop_first(), b.drop_first(), c.drop_first());
    }
}

/// The order is asymmetric.
pub proof fn lemma_lex_asymmetric(a: Seq<char>, b: Seq<char>)
    requires
        lex_lt(a, b),
    ensures
        !lex_lt(b, a),
{
    if lex_lt(b, a) {
        lemma_lex_transitive(a, b, a);
        lemma_lex_irreflexive(a);
    }
}

/// Whether `a` sorts strictly before `b`.
pub fn lex_less(a: &str, b: &str) -> (r: bool)
    ensures
        r == lex_lt(a@, b@),
{
    let x = chars_of(a);
    let y = chars_of(b);
    let mut i: usize = 0;
    assert(x@.subrange(0, x@.len() as int) =~= a@);
    assert(y@.subrange(0, y@.len() as int) =~= b@);
    while i < x.len() && i < y.len() && x[i] == y[i]
        invariant
            i <= x@.len(),
            i <= y@.len(),
            lex_lt(x@.subrange(i as int, x@.len() as int), y@.subrange(i as int, y@.len() as int)) == lex_lt(a@, b@),
        decreases x@.len() - i,
    {
        assert(x@.subrange(i as int, x@.len() as int).drop_first() =~= x@.subrange(i + 1, x@.len() as int));
        assert(y@.subrange(i as int, y@.len() as int).drop_first() =~= y@.subrange(i + 1, y@.len() as int));
        i = i + 1;
    }
    if i == x.len() {
        i < y.len()
    } else if i == y.len() {
        false
    } else {
        assert(x@.subrange(i as int, x@.len() as int)[0] == x@[i as int]);
        assert(y@.subrange(i as int, y@.len() as int)[0] == y@[i as int]);
        (x[i] as u32) < (y[i] as u32)
    }
}

/// `p` occurs in `ps`.
#[verifier::opaque]
pub open spec fn phase_listed(ps: Seq<Seq<char>>, p: Seq<char>) -> bool {
    exists|i: int| 0 <= i < ps.len() && ps[i] == p
}

/// `p` is the phase of one of the first `n` metrics of `ms`.
#[verifier::opaque]
pub open spec fn phase_used(ms: Seq<MetricDefView>, n: int, p: Seq<char>) -> bool {
    exists|j: int| 0 <= j < n && ms[j].phase == p
}

/// `ps` lists, strictly sorted, exactly the phases of the first `n` metrics of `ms`.
pub open spec fn phases_of_prefix(ps: Seq<Seq<char>>, ms: Seq<MetricDefView>, n: int) -> bool {
    &&& forall|i: int, j: int| 0 <= i < j < ps.len() ==> lex_lt(ps[i], ps[j])
    &&& forall|i: int| 0 <= i < ps.len() ==> phase_used(ms, n, #[trigger] ps[i])
    &&& forall|j: int| 0 <= j < n ==> phase_listed(ps, #[trigger] ms[j].phase)
}

/// `ps` lists, strictly sorted, exactly the phases of `ms`.
pub open spec fn is_phase_order(ps: Seq<Seq<char>>, ms: Seq<MetricDefView>) -> bool {
    phases_of_prefix(ps, ms, ms.len() as int)
}

/// A phase already listed adds nothing to the list.
proof fn lemma_phase_present(ps: Seq<Seq<char>>, ms: Seq<MetricDefView>, n: int, k: int)
    requires
        0 <= n < ms.len(),
        0 <= k < ps.len(),
        phases_of_prefix(ps, ms, n),
        ps[k] == ms[n].phase,
    ensures
        phases_of_prefix(ps, ms, n + 1),
{
    assert forall|i: int| 0 <= i < ps.len() implies phase_used(ms, n + 1, #[trigger] ps[i]) by {
        assert(phase_used(ms, n, ps[i]));
        reveal(phase_used);
    }
    assert(phase_listed(ps, ms[n].phase)) by {
        reveal(phase_listed);
        assert(ps[k] == ms[n].phase);
    }
}

/// A new phase inserted at its place keeps the list sorted and complete.
proof fn lemma_phase_inserted(old_ps: Seq<Seq<char>>, ms: Seq<MetricDefView>, n: int, k: int)
    requires
        0 <= n < ms.len(),
        0 <= k <= old_ps.len(),
        phases_of_prefix(old_ps, ms, n),
        forall|j: int| 0 <= j < k ==> lex_lt(old_ps[j], ms[n].phase),
        k < old_ps.len() ==> lex_lt(ms[n].phase, old_ps[k]),
    ensures
        phases_of_prefix(old_ps.insert(k, ms[n].phase), ms, n + 1),
{
    let pv = ms[n].phase;
    let new_ps = old_ps.insert(k, pv);
    assert(new_ps.len() == old_ps.len() + 1);
    assert(forall|i: int| 0 <= i < k ==> new_ps[i] == old_ps[i]);
    assert(new_ps[k] == pv);
    assert(forall|i: int| k < i < new_ps.len() ==> new_ps[i] == old_ps[i - 1]);
    assert forall|i: int, j: int| 0 <= i < j < new_ps.len() implies lex_lt(new_ps[i], new_ps[j]) by {
        if j < k {
            assert(new_ps[i] == old_ps[i]);
            assert(new_ps[j] == old_ps[j]);
        } else if j == k {
            assert(new_ps[i] == old_ps[i]);
        } else {
            assert(new_ps[j] == old_ps[j - 1]);
            if i < k {
                assert(new_ps[i] == old_ps[i]);
            } else if i == k {
                if j - 1 > k {
                    lemma_lex_transitive(pv, old_ps[k], old_ps[j - 1]);
                }
            } else {
                assert(new_ps[i] == old_ps[i - 1]);
            }
        }
    }
    assert forall|j: int| 0 <= j < n + 1 implies phase_listed(new_ps, #[trigger] ms[j].phase) by {
        if j == n {
            reveal(phase_listed);
            assert(new_ps[k] == pv);
        } else {
            assert(phase_listed(old_ps, ms[j].phase));
            reveal(phase_listed);
            let i = choose|i: int| 0 <= i < old_ps.len() && old_ps[i] == ms[j].phase;
            if i < k {
                assert(new_ps[i] == old_ps[i]);
            } else {
                assert(new_ps[i + 1] == old_ps[i]);
            }
        }
    }
    assert forall|i: int| 0 <= i < new_ps.len() implies phase_used(ms, n + 1, #[trigger] new_ps[i]) by {
        if i == k {
            reveal(phase_used);
            assert(ms[n].phase == new_ps[i]);
        } else {
            let oi = if i < k { i } else { i - 1 };
            assert(new_ps[i] == old_ps[oi]);
            assert(phase_used(ms, n, old_ps[oi]));
            reveal(phase_used);
            let j = choose|j: int| 0 <= j < n && ms[j].phase == old_ps[oi];
            assert(ms[j].phase == new_ps[i]);
        }
    }
}

/// The distinct phases of `metrics`, sorted.
pub fn sorted_phases(metrics: &Vec<MetricDef>) -> (ps: Vec<String>)
    ensures
        is_phase_order(views_of(ps@), metrics@.map_values(|m: MetricDef| m@)),
        ps@.len() <= metrics@.len(),
{
    let ghost ms = metrics@.map_values(|m: MetricDef| m@);
    let mut ps: Vec<String> = Vec::new();
    let mut n: usize = 0;
    while n < metrics.len()
        invariant
            n <= metrics@.len(),
            ms == metrics@.map_values(|m: MetricDef| m@),
            ps@.len() <= n,
            phases_of_prefix(views_of(ps@), ms, n as int),
        decreases metrics@.len() - n,
    {
        let p = &metrics[n].phase;
        let ghost pv = p@;
        let ghost old_ps = views_of(ps@);
        let mut k: usize = 0;
        while k < ps.len() && lex_less(ps[k].as_str(), p.as_str())
            invariant
                k <= ps@.len(),
                old_ps == views_of(ps@),
                pv == p@,
                forall|j: int| 0 <= j < k ==> lex_lt(old_ps[j], pv),
            decreases ps@.len() - k,
        {
            assert(old_ps[k as int] == ps@[k as int]@);
            k = k + 1;
        }
        let present = k < ps.len() && ps[k] == *p;
        assert(ms[n as int].phase == pv);
        if present {
            proof {
                lemma_phase_present(old_ps, ms, n as int, k as int);
            }
        } else {
            proof {
                if k < ps@.len() {
                    assert(old_ps[k as int] == ps@[k as int]@);
                    assert(!lex_lt(old_ps[k as int], pv));
                    assert(old_ps[k as int] != pv);
                    lemma_lex_total(old_ps[k as int], pv);
                }
                lemma_phase_inserted(old_ps, ms, n as int, k as int);
            }
            let q = p.clone();
            ps.insert(k, q);
            assert(views_of(ps@) =~= old_ps.insert(k as int, pv));
        }
        n = n + 1;
    }
    ps
}

/// One dashboard panel: a row that opens a phase, or the panel of a metric
/// (by its index among the dashboard's metrics).
pub enum Panel {
    Row { id: u64, y: u64, phase: String },
    Metric { id: u64, x: u64, y: u64, metric: usize },
}

/// The mathematical content of a [`Panel`].
pub enum PanelView {
    Row { id: int, y: int, phase: Seq<char> },
    Metric { id: int, x: int, y: int, metric: int },
}

/// The views of a sequence of panels.
pub open spec fn panels_view(ps: Seq<Panel>) -> Seq<PanelView> {
    ps.map_values(|p: Panel| match p {
        Panel::Row { id, y, phase } => PanelView::Row { id: id as int, y: y as int, phase: phase@ },
        Panel::Metric { id, x, y, metric } => PanelView::Metric { id: id as int, x: x as int, y: y as int, metric: metric as int },
    })
}

/// The indices below `n` of the metrics of phase `p`, ascending.
pub open spec fn phase_indices(ms: Seq<MetricDefView>, p: Seq<char>, n: int) -> Seq<int>
    decreases n,
{
    if n <= 0 {
        Seq::empty()
    } else if ms[n - 1].phase == p {
        phase_indices(ms, p, n - 1).push(n - 1)
    } else {
        phase_indices(ms, p, n - 1)
    }
}

/// The panels of the metrics at `idx`, two per grid row of height 8, from
/// panel id `id` and height `y`.
pub open spec fn metric_panels(idx: Seq<int>, id: int, y: int) -> Seq<PanelView> {
    Seq::new(idx.len(), |j: int| PanelView::Metric {
        id: id + j,
        x: if j % 2 == 0 { 0 } else { 12 },
        y: y + (j / 2) * 8,
        metric: idx[j],
    })
}

/// The panel layout: for each phase in order, a row panel and then its
/// metric panels, ids counting up from `id` and rows stacked from `y`.
pub open spec fn layout_spec(ms: Seq<MetricDefView>, phases: Seq<Seq<char>>, id: int, y: int) -> Seq<PanelView>
    decreases phases.len(),
{
    if phases.len() == 0 {
        Seq::empty()
    } else {
        let idx = phase_indices(ms, phases[0], ms.len() as int);
        seq![PanelView::Row { id, y, phase: phases[0] }] + metric_panels(idx, id + 1, y + 1)
            + layout_spec(ms, phases.drop_first(), id + 1 + idx.len(), y + 1 + ((idx.len() + 1) / 2) * 8)
    }
}

/// The phases in order and the panels of a dashboard.
pub struct DashboardLayout {
    pub phases: Vec<String>,
    pub panels: Vec<Panel>,
}

proof fn lemma_phase_indices_len(ms: Seq<MetricDefView>, p: Seq<char>, n: int)
    requires
        0 <= n,
    ensures
        phase_indices(ms, p, n).len() <= n,
    decreases n,
{
    if n > 0 {
        lemma_phase_indices_len(ms, p, n - 1);
    }
}

/// Lays out the panels: phases sorted by name, metrics of a phase in their
/// order, two metric panels per row.
pub fn layout_panels(metrics: &Vec<MetricDef>) -> (r: DashboardLayout)
    requires
        metrics@.len() < 0x4000_0000,
    ensures
        is_phase_order(views_of(r.phases@), metrics@.map_values(|m: MetricDef| m@)),
        panels_view(r.panels@) == layout_spec(metrics@.map_values(|m: MetricDef| m@), views_of(r.phases@), 1, 0),
{
    let ghost ms = metrics@.map_values(|m: MetricDef| m@);
    let phases = sorted_phases(metrics);
    let ghost ps = views_of(phases@);
    let n = metrics.len();
    let mut panels: Vec<Panel> = Vec::new();
    let mut id: u64 = 1;
    let mut y: u64 = 0;
    let mut k: usize = 0;
    assert(ps.subrange(0, ps.len() as int) =~= ps);
    assert(panels_view(panels@) =~= Seq::<PanelView>::empty());
    while k < phases.len()
        invariant
            ms == metrics@.map_values(|m: MetricDef| m@),
            ps == views_of(phases@),
            n == metrics@.len(),
            n < 0x4000_0000,
            phases@.len() <= n,
            k <= phases@.len(),
            id <= 1 + k * (1 + n),
            y <= k * (9 + 4 * n),
            panels_view(panels@) + layout_spec(ms, ps.subrange(k as int, ps.len() as int), id as int, y as int)
                == layout_spec(ms, ps, 1, 0),
        decreases phases@.len() - k,
    {
        let p = &phases[k];
        let ghost pv = p@;
        let ghost before = panels_view(panels@);
        let ghost id0 = id as int;
        let ghost y0 = y as int;
        assert(ps.subrange(k as int, ps.len() as int)[0] == pv);
        proof {
            assert(k * (1 + n) <= n * (1 + n)) by (nonlinear_arith) requires k <= n;
            assert(k * (9 + 4 * n) <= n * (9 + 4 * n)) by (nonlinear_arith) requires k <= n;
            assert(n * (1 + n) < 0x4000_0000 * 0x4000_0001) by (nonlinear_arith) requires n < 0x4000_0000;
            assert(n * (9 + 4 * n) < 0x4000_0000 * (9 + 4 * 0x4000_0000)) by (nonlinear_arith) requires n < 0x4000_0000;
        }
        panels.push(Panel::Row { id, y, phase: p.clone() });
        id = id + 1;
        y = y + 1;
        let ghost base = before.push(PanelView::Row { id: id0, y: y0, phase: pv });
        assert(panels_view(panels@) =~= base);
        let mut x: u64 = 0;
        let mut cnt: usize = 0;
        let mut i: usize = 0;
        while i < n
            invariant
                ms == metrics@.map_values(|m: MetricDef| m@),
                n == metrics@.len(),
                n < 0x4000_0000,
                i <= n,
                pv == p@,
                cnt == phase_indices(ms, pv, i as int).len(),
                cnt <= i,
                id == id0 + 1 + cnt,
                x == (if cnt % 2 == 0 { 0int } else { 12int }),
                y == y0 + 1 + (cnt / 2) * 8,
                id0 <= 1 + k * (1 + n),
                y0 <= k * (9 + 4 * n),
                k * (1 + n) <= n * (1 + n),
                k * (9 + 4 * n) <= n * (9 + 4 * n),
                n * (1 + n) < 0x4000_0000 * 0x4000_0001,
                n * (9 + 4 * n) < 0x4000_0000 * (9 + 4 * 0x4000_0000),
                panels_view(panels@) == base + metric_panels(phase_indices(ms, pv, i as int), id0 + 1, y0 + 1),
            decreases n - i,
        {
            let ghost idx_before = phase_indices(ms, pv, i as int);
            if metrics[i].phase == *p {
                let ghost pv_before = panels_view(panels@);
                let ghost cell = PanelView::Metric { id: id as int, x: x as int, y: y as int, metric: i as int };
                panels.push(Panel::Metric { id, x, y, metric: i });
                assert(panels_view(panels@) =~= pv_before.push(cell));
                assert(metric_panels(idx_before.push(i as int), id0 + 1, y0 + 1) =~= metric_panels(idx_before, id0 + 1, y0 + 1).push(cell));
                id = id + 1;
                x = x + 12;
                if x >= 24 {
                    x = 0;
                    y = y + 8;
                }
                cnt = cnt + 1;
                assert(phase_indices(ms, pv, i + 1) == idx_before.push(i as int));
                assert(panels_view(panels@) =~= base + metric_panels(idx_before.push(i as int), id0 + 1, y0 + 1));
            } else {
                assert(phase_indices(ms, pv, i + 1) == idx_before);
            }
            i = i + 1;
        }
        proof {
            lemma_phase_indices_len(ms, pv, n as int);
        }
        if x > 0 {
            y = y + 8;
        }
        proof {
            let idx = phase_indices(ms, pv, n as int);
            let rest = ps.subrange(k as int, ps.len() as int);
            assert(rest.drop_first() =~= ps.subrange(k + 1, ps.len() as int));
            assert(y == y0 + 1 + ((idx.len() + 1) / 2) * 8);
            assert(layout_spec(ms, rest, id0, y0) =~= seq![PanelView::Row { id: id0, y: y0, phase: pv }]
                + metric_panels(idx, id0 + 1, y0 + 1) + layout_spec(ms, rest.drop_first(), id as int, y as int));
            assert(panels_view(panels@) + layout_spec(ms, ps.subrange(k + 1, ps.len() as int), id as int, y as int)
                =~= before + layout_spec(ms, rest, id0, y0));
            assert(id <= 1 + (k + 1) * (1 + n)) by (nonlinear_arith)
                requires id == id0 + 1 + idx.len(), id0 <= 1 + k * (1 + n), idx.len() <= n;
            assert(y <= (k + 1) * (9 + 4 * n)) by (nonlinear_arith)
                requires y == y0 + 1 + ((idx.len() + 1) / 2) * 8, y0 <= k * (9 + 4 * n), idx.len() <= n;
        }
        k = k + 1;
    }
    assert(ps.subrange(k as int, ps.len() as int) =~= Seq::<Seq<char>>::empty());
    assert(panels_view(panels@) =~= layout_spec(ms, ps, 1, 0));
    DashboardLayout { phases, panels }
}

/// How a metric's panel shows it.
#[derive(Debug, Clone, Copy, PartialEq, Eq, Structural)]
pub enum PanelStyle {
    /// A line graph of the per-second rate, in operations per second.
    RateGraph,
    /// A stat of the running total with green, yellow (1000) and red
    /// (10000) thresholds.
    TotalStat,
    /// A line graph of the 50th, 95th and 99th percentiles.
    QuantileGraph,
    /// A stat of the current value.
    GaugeStat,
}

/// One query of a panel.
#[derive(Debug)]
pub struct PanelTarget {
    pub expr: String,
    pub legend_format: String,
    pub ref_id: String,
}

/// What a metric's panel shows: its style, title, unit and queries.
#[derive(Debug)]
pub struct MetricPanel {
    pub style: PanelStyle,
    pub title: String,
    pub unit: String,
    pub targets: Vec<PanelTarget>,
}

/// The mathematical content of a [`MetricPanel`]: style, title, unit and
/// the (expression, legend, reference id) of each query.
pub open spec fn metric_panel_view(p: MetricPanel) -> (PanelStyle, Seq<char>, Seq<char>, Seq<(Seq<char>, Seq<char>, Seq<char>)>) {
    (p.style, p.title@, p.unit@, p.targets@.map_values(|t: PanelTarget| (t.expr@, t.legend_format@, t.ref_id@)))
}

/// Whether a counter is shown as a running total: its name has `_total`,
/// `extracted` or `ingested`, or its description mentions a total.
pub open spec fn shows_total(name: Seq<char>, description: Seq<char>) -> bool {
    contains_spec(name, "_total"@) || contains_spec(name, "extracted"@) || contains_spec(name, "ingested"@)
        || contains_spec(lowercase_of(description), "total"@)
}

/// The quantile query of a histogram: `histogram_quantile(q, sum(rate(<name>_bucket[5m])) by (le))`.
pub open spec fn quantile_expr(q: Seq<char>, name: Seq<char>) -> Seq<char> {
    "histogram_quantile("@ + q + ", sum(rate("@ + name + "_bucket[5m])) by (le))"@
}

/// The unit of a histogram or gauge panel: the metric's, or `short`.
pub open spec fn unit_or_short(u: Option<Seq<char>>) -> Seq<char> {
    match u {
        Some(x) => x,
        None => "short"@,
    }
}

/// The panel of a metric. Counters are rate graphs (titled with ` (Rate)`
/// where totals are shown apart), or running-total stats when
/// `totals_apart` and the counter is a total; histograms show three
/// quantiles; gauges their value.
pub open spec fn metric_panel_spec(m: MetricDefView, totals_apart: bool) -> (PanelStyle, Seq<char>, Seq<char>, Seq<(Seq<char>, Seq<char>, Seq<char>)>) {
    match m.metric_type {
        MetricType::Counter => if totals_apart && shows_total(m.name, m.description) {
            (PanelStyle::TotalStat, m.description, "short"@, seq![(m.name, "{{instance}}"@, "A"@)])
        } else {
            (PanelStyle::RateGraph, if totals_apart { m.description + " (Rate)"@ } else { m.description }, "ops"@,
                seq![("rate("@ + m.name + "[5m])"@, "{{instance}}"@, "A"@)])
        },
        MetricType::Histogram => (PanelStyle::QuantileGraph, m.description, unit_or_short(m.unit), seq![
            (quantile_expr("0.5"@, m.name), "p50"@, "A"@),
            (quantile_expr("0.95"@, m.name), "p95"@, "B"@),
            (quantile_expr("0.99"@, m.name), "p99"@, "C"@),
        ]),
        MetricType::Gauge => (PanelStyle::GaugeStat, m.description, unit_or_short(m.unit), seq![(m.name, "{{instance}}"@, "A"@)]),
    }
}

fn target(expr: String, legend: &str, ref_id: &str) -> (r: PanelTarget)
    ensures
        r.expr == expr,
        r.legend_format@ == legend@,
        r.ref_id@ == ref_id@,
{
    PanelTarget { expr, legend_format: owned(legend), ref_id: owned(ref_id) }
}

fn concat3(a: &str, b: &str, c: &str) -> (r: String)
    ensures
        r@ == a@ + b@ + c@,
{
    let mut r = owned(a);
    r.append(b);
    r.append(c);
    r
}

/// Whether a counter is shown as a running total.
pub fn counter_shows_total(name: &str, description: &str) -> (r: bool)
    ensures
        r == shows_total(name@, description@),
{
    let lower = to_lowercase(description);
    contains_str(name, "_total") || contains_str(name, "extracted") || contains_str(name, "ingested")
        || contains_str(lower.as_str(), "total")
}

/// The panel of a metric.
pub fn metric_panel(m: &MetricDef, totals_apart: bool) -> (r: MetricPanel)
    ensures
        metric_panel_view(r) == metric_panel_spec(m@, totals_apart),
{
    let mut targets: Vec<PanelTarget> = Vec::new();
    match m.metric_type {
        MetricType::Counter => {
            if totals_apart && counter_shows_total(m.name.as_str(), m.description.as_str()) {
                targets.push(target(m.name.clone(), "{{instance}}", "A"));
                let r = MetricPanel { style: PanelStyle::TotalStat, title: m.description.clone(), unit: owned("short"), targets };
                assert(metric_panel_view(r).3 =~= seq![(m@.name, "{{instance}}"@, "A"@)]);
                r
            } else {
                targets.push(target(concat3("rate(", m.name.as_str(), "[5m])"), "{{instance}}", "A"));
                let title = if totals_apart {
                    let mut t = m.description.clone();
                    t.append(" (Rate)");
                    t
                } else {
                    m.description.clone()
                };
                let r = MetricPanel { style: PanelStyle::RateGraph, title, unit: owned("ops"), targets };
                assert(metric_panel_view(r).3 =~= seq![("rate("@ + m@.name + "[5m])"@, "{{instance}}"@, "A"@)]);
                r
            }
        },
        MetricType::Histogram => {
            targets.push(target(concat3("histogram_quantile(0.5, sum(rate(", m.name.as_str(), "_bucket[5m])) by (le))"), "p50", "A"));
            targets.push(target(concat3("histogram_quantile(0.95, sum(rate(", m.name.as_str(), "_bucket[5m])) by (le))"), "p95", "B"));
            targets.push(target(concat3("histogram_quantile(0.99, sum(rate(", m.name.as_str(), "_bucket[5m])) by (le))"), "p99", "C"));
            let unit = match &m.unit {
                Some(u) => u.clone(),
                None => owned("short"),
            };
            proof {
                reveal_strlit("histogram_quantile(0.5, sum(rate(");
                reveal_strlit("histogram_quantile(0.95, sum(rate(");
                reveal_strlit("histogram_quantile(0.99, sum(rate(");
                reveal_strlit("histogram_quantile(");
                reveal_strlit(", sum(rate(");
                reveal_strlit("0.5");
                reveal_strlit("0.95");
                reveal_strlit("0.99");
                assert("histogram_quantile(0.5, sum(rate("@ =~= "histogram_quantile("@ + "0.5"@ + ", sum(rate("@);
                assert("histogram_quantile(0.95, sum(rate("@ =~= "histogram_quantile("@ + "0.95"@ + ", sum(rate("@);
                assert("histogram_quantile(0.99, sum(rate("@ =~= "histogram_quantile("@ + "0.99"@ + ", sum(rate("@);
            }
            let r = MetricPanel { style: PanelStyle::QuantileGraph, title: m.description.clone(), unit, targets };
            assert(metric_panel_view(r).3 =~= seq![
                (quantile_expr("0.5"@, m@.name), "p50"@, "A"@),
                (quantile_expr("0.95"@, m@.name), "p95"@, "B"@),
                (quantile_expr("0.99"@, m@.name), "p99"@, "C"@),
            ]);
            r
        },
        MetricType::Gauge => {
            targets.push(target(m.name.clone(), "{{instance}}", "A"));
            let unit = match &m.unit {
                Some(u) => u.clone(),
                None => owned("short"),
            };
            let r = MetricPanel { style: PanelStyle::GaugeStat, title: m.description.clone(), unit, targets };
            assert(metric_panel_view(r).3 =~= seq![(m@.name, "{{instance}}"@, "A"@)]);
            r
        },
    }
}

/// What a panel holds: a row opening a phase, or a metric.
#[derive(Debug)]
pub enum PanelContent {
    Row { title: String },
    Metric(MetricPanel),
}

/// A panel with its id and grid position and size.
#[derive(Debug)]
pub struct PanelPlan {
    pub id: u64,
    pub x: u64,
    pub y: u64,
    pub w: u64,
    pub h: u64,
    pub content: PanelContent,
}

/// A whole dashboard: title, datasource and panels in order.
#[derive(Debug)]
pub struct DashboardPlan {
    pub title: String,
    pub datasource: String,
    pub panels: Vec<PanelPlan>,
}

/// `p` is the laid-out panel `v` of the metrics `ms`: a row titled with the
/// uppercased phase and ` Metrics`, full width and one high, or a metric
/// panel half wide and eight high.
pub open spec fn panel_plan_matches(p: PanelPlan, v: PanelView, ms: Seq<MetricDefView>, totals_apart: bool) -> bool {
    match v {
        PanelView::Row { id, y, phase } => p.id == id && p.x == 0 && p.y == y && p.w == 24 && p.h == 1
            && (p.content matches PanelContent::Row { title } && title@ == uppercase_of(phase) + " Metrics"@),
        PanelView::Metric { id, x, y, metric } => p.id == id && p.x == x && p.y == y && p.w == 12 && p.h == 8
            && (p.content matches PanelContent::Metric(mp) && metric_panel_view(mp) == metric_panel_spec(ms[metric], totals_apart)),
    }
}

proof fn lemma_phase_indices_bound(ms: Seq<MetricDefView>, p: Seq<char>, n: int)
    requires
        0 <= n,
    ensures
        forall|j: int| 0 <= j < phase_indices(ms, p, n).len() ==> 0 <= #[trigger] phase_indices(ms, p, n)[j] < n,
    decreases n,
{
    if n > 0 {
        lemma_phase_indices_bound(ms, p, n - 1);
        let prev = phase_indices(ms, p, n - 1);
        assert forall|j: int| 0 <= j < phase_indices(ms, p, n).len() implies 0 <= #[trigger] phase_indices(ms, p, n)[j] < n by {
            if j < prev.len() {
                assert(phase_indices(ms, p, n)[j] == prev[j]);
            }
        }
    }
}

proof fn lemma_layout_metric_indices(ms: Seq<MetricDefView>, phases: Seq<Seq<char>>, id: int, y: int)
    ensures
        forall|i: int| 0 <= i < layout_spec(ms, phases, id, y).len() ==> (#[trigger] layout_spec(ms, phases, id, y)[i] matches PanelView::Metric { metric, .. }
            ==> 0 <= metric < ms.len()),
    decreases phases.len(),
{
    if phases.len() > 0 {
        let idx = phase_indices(ms, phases[0], ms.len() as int);
        lemma_phase_indices_bound(ms, phases[0], ms.len() as int);
        lemma_layout_metric_indices(ms, phases.drop_first(), id + 1 + idx.len(), y + 1 + ((idx.len() + 1) / 2) * 8);
        let head = seq![PanelView::Row { id, y, phase: phases[0] }] + metric_panels(idx, id + 1, y + 1);
        let rest = layout_spec(ms, phases.drop_first(), id + 1 + idx.len(), y + 1 + ((idx.len() + 1) / 2) * 8);
        assert(layout_spec(ms, phases, id, y) == head + rest);
        assert forall|i: int| 0 <= i < layout_spec(ms, phases, id, y).len() implies (#[trigger] layout_spec(ms, phases, id, y)[i] matches PanelView::Metric { metric, .. }
            ==> 0 <= metric < ms.len()) by {
            if i >= head.len() {
                assert(layout_spec(ms, phases, id, y)[i] == rest[i - head.len()]);
            } else if i >= 1 {
                assert(layout_spec(ms, phases, id, y)[i] == metric_panels(idx, id + 1, y + 1)[i - 1]);
            }
        }
    }
}

/// Dashboard builder: a title, a datasource and the metrics to show.
pub struct DashboardBuilder {
    pub title: String,
    pub metrics: Vec<MetricDef>,
    pub datasource: String,
}

impl DashboardBuilder {
    /// The views of the metrics, in order.
    pub open spec fn metrics_view(&self) -> Seq<MetricDefView> {
        self.metrics@.map_values(|m: MetricDef| m@)
    }

    /// An empty dashboard with the `Prometheus` datasource.
    pub fn new(title: &str) -> (r: Self)
        ensures
            r.title@ == title@,
            r.datasource@ == "Prometheus"@,
            r.metrics_view().len() == 0,
    {
        let r = DashboardBuilder { title: owned(title), metrics: Vec::new(), datasource: owned("Prometheus") };
        assert(r.metrics_view() =~= Seq::<MetricDefView>::empty());
        r
    }

    /// Sets the datasource name.
    pub fn with_datasource(self, datasource: &str) -> (r: Self)
        ensures
            r.title == self.title,
            r.datasource@ == datasource@,
            r.metrics_view() == self.metrics_view(),
    {
        DashboardBuilder { title: self.title, metrics: self.metrics, datasource: owned(datasource) }
    }

    /// Adds a metric after the existing ones.
    pub fn add_metric(self, metric: MetricDef) -> (r: Self)
        ensures
            r.title == self.title,
            r.datasource == self.datasource,
            r.metrics_view() == self.metrics_view().push(metric@),
    {
        let mut b = self;
        let ghost m = metric@;
        b.metrics.push(metric);
        assert(b.metrics_view() =~= self.metrics_view().push(m));
        b
    }

    /// The dashboard of every metric the catalog names, found by going
    /// through [`MetricName::all_metrics`].
    pub fn from_metrics_enum() -> (r: Self)
        ensures
            r.title@ == "SMS Scraper Metrics Dashboard (Auto-Generated)"@,
            r.datasource@ == "Prometheus"@,
            r.metrics_view() == catalog_spec(),
    {
        let mut builder = Self::new("SMS Scraper Metrics Dashboard (Auto-Generated)");
        let all = MetricName::all_metrics();
        let mut i: usize = 0;
        while i < all.len()
            invariant
                all@ == catalog_names(),
                i <= 32,
                builder.title@ == "SMS Scraper Metrics Dashboard (Auto-Generated)"@,
                builder.datasource@ == "Prometheus"@,
                builder.metrics_view() == catalog_spec().take(i as int),
            decreases 32 - i,
        {
            let d = all[i].definition();
            assert(catalog_spec()[i as int] == name_def(all@[i as int]));
            builder = builder.add_metric(d);
            assert(builder.metrics_view() =~= catalog_spec().take(i + 1));
            i = i + 1;
        }
        assert(catalog_spec().take(32) =~= catalog_spec());
        builder
    }

    /// The dashboard of the first metric catalog.
    pub fn from_legacy_catalog() -> (r: Self)
        ensures
            r.title@ == "SMS Scraper Metrics Dashboard"@,
            r.datasource@ == "Prometheus"@,
            r.metrics_view() == legacy_catalog_spec(),
    {
        let mut builder = Self::new("SMS Scraper Metrics Dashboard");
        builder = builder.add_metric(metric_def("sms_sources_requests_success_total", MetricType::Counter, "Total successful source requests", None, "sources"));
        builder = builder.add_metric(metric_def("sms_sources_requests_error_total", MetricType::Counter, "Total failed source requests", None, "sources"));
        builder = builder.add_metric(metric_def("sms_sources_request_duration_seconds", MetricType::Histogram, "Request duration in seconds", Some("s"), "sources"));
        builder = builder.add_metric(metric_def("sms_sources_payload_bytes", MetricType::Histogram, "Payload size in bytes", Some("bytes"), "sources"));
        builder = builder.add_metric(metric_def("sms_sources_registry_loads_success_total", MetricType::Counter, "Successful registry loads", None, "sources"));
        builder = builder.add_metric(metric_def("sms_gateway_envelopes_accepted_total", MetricType::Counter, "Total envelopes accepted", None, "gateway"));
        builder = builder.add_metric(metric_def("sms_gateway_envelopes_deduplicated_total", MetricType::Counter, "Total envelopes deduplicated", None, "gateway"));
        builder = builder.add_metric(metric_def("sms_gateway_cas_writes_success_total", MetricType::Counter, "Successful CAS writes", None, "gateway"));
        builder = builder.add_metric(metric_def("sms_gateway_processing_duration_seconds", MetricType::Histogram, "Gateway processing duration", Some("s"), "gateway"));
        builder = builder.add_metric(metric_def("sms_gateway_bytes_ingested", MetricType::Histogram, "Bytes ingested per source", Some("bytes"), "gateway"));
        builder = builder.add_metric(metric_def("sms_ingest_log_writes_success_total", MetricType::Counter, "Successful log writes", None, "ingest_log"));
        builder = builder.add_metric(metric_def("sms_ingest_log_write_bytes", MetricType::Histogram, "Log write size", Some("bytes"), "ingest_log"));
        builder = builder.add_metric(metric_def("sms_ingest_log_current_file_bytes", MetricType::Gauge, "Current log file size", Some("bytes"), "ingest_log"));
        builder = builder.add_metric(metric_def("sms_parser_parse_success_total", MetricType::Counter, "Successful parses", None, "parser"));
        builder = builder.add_metric(metric_def("sms_parser_parse_error_total", MetricType::Counter, "Parse errors", None, "parser"));
        builder = builder.add_metric(metric_def("sms_parser_duration_seconds", MetricType::Histogram, "Parse duration", Some("s"), "parser"));
        builder = builder.add_metric(metric_def("sms_parser_records_extracted_total", MetricType::Counter, "Records extracted", None, "parser"));
        builder = builder.add_metric(metric_def("sms_parser_batch_size", MetricType::Histogram, "Parse batch size", None, "parser"));
        assert(builder.metrics_view() =~~= legacy_catalog_spec());
        builder
    }

    /// The dashboard of the pipeline's metric catalog.
    #[verifier::rlimit(40)]
    pub fn from_catalog() -> (r: Self)
        ensures
            r.title@ == "SMS Scraper Metrics Dashboard"@,
            r.datasource@ == "Prometheus"@,
            r.metrics_view() == catalog_spec(),
    {
        let mut builder = Self::new("SMS Scraper Metrics Dashboard");
        builder = builder.add_metric(def_sources_requests_success());
        builder = builder.add_metric(def_sources_requests_error());
        builder = builder.add_metric(def_sources_request_duration());
        builder = builder.add_metric(def_sources_payload_bytes());
        builder = builder.add_metric(def_sources_registry_loads_success());
        builder = builder.add_metric(def_gateway_envelopes_accepted());
        builder = builder.add_metric(def_gateway_envelopes_deduplicated());
        builder = builder.add_metric(def_gateway_cas_writes_success());
        builder = builder.add_metric(def_gateway_records_ingested());
        builder = builder.add_metric(def_gateway_processing_duration());
        builder = builder.add_metric(def_gateway_bytes_ingested());
        builder = builder.add_metric(def_ingest_log_writes_success());
        builder = builder.add_metric(def_ingest_log_write_bytes());
        builder = builder.add_metric(def_ingest_log_current_file_bytes());
        builder = builder.add_metric(def_parser_parse_success());
        builder = builder.add_metric(def_parser_parse_error());
        builder = builder.add_metric(def_parser_duration());
        builder = builder.add_metric(def_parser_records_extracted());
        builder = builder.add_metric(def_parser_batch_size());
        builder = builder.add_metric(def_normalize_records_processed());
        builder = builder.add_metric(def_normalize_confidence());
        builder = builder.add_metric(def_normalize_geocoding());
        builder = builder.add_metric(def_normalize_warnings());
        builder = builder.add_metric(def_normalize_batches_processed());
        builder = builder.add_metric(def_normalize_batch_size());
        builder = builder.add_metric(def_quality_gate_records_accepted());
        builder = builder.add_metric(def_quality_gate_records_accepted_with_warnings());
        builder = builder.add_metric(def_quality_gate_records_quarantined());
        builder = builder.add_metric(def_quality_gate_quality_score());
        builder = builder.add_metric(def_quality_gate_issues_detected());
        builder = builder.add_metric(def_quality_gate_batches_processed());
        builder = builder.add_metric(def_quality_gate_batch_size());
        assert(builder.metrics_view() =~~= catalog_spec());
        builder
    }

    /// The whole dashboard: its panels laid out by phase, each with its
    /// content; with `totals_apart`, counters that are totals show as
    /// running-total stats and the others as titled rate graphs.
    pub fn build(&self, totals_apart: bool) -> (r: DashboardPlan)
        requires
            self.metrics@.len() < 0x4000_0000,
        ensures
            r.title == self.title,
            r.datasource == self.datasource,
            exists|phases: Seq<Seq<char>>| {
                &&& is_phase_order(phases, self.metrics_view())
                &&& r.panels@.len() == layout_spec(self.metrics_view(), phases, 1, 0).len()
                &&& forall|i: int| 0 <= i < r.panels@.len() ==> panel_plan_matches(#[trigger] r.panels@[i],
                    layout_spec(self.metrics_view(), phases, 1, 0)[i], self.metrics_view(), totals_apart)
            },
    {
        let ghost ms = self.metrics_view();
        let layout = layout_panels(&self.metrics);
        let ghost ps = views_of(layout.phases@);
        let ghost lay = layout_spec(ms, ps, 1, 0);
        proof {
            lemma_layout_metric_indices(ms, ps, 1, 0);
        }
        let mut out: Vec<PanelPlan> = Vec::new();
        let mut i: usize = 0;
        while i < layout.panels.len()
            invariant
                ms == self.metrics_view(),
                panels_view(layout.panels@) == lay,
                lay == layout_spec(ms, ps, 1, 0),
                forall|k: int| 0 <= k < lay.len() ==> (#[trigger] lay[k] matches PanelView::Metric { metric, .. } ==> 0 <= metric < ms.len()),
                i <= layout.panels@.len(),
                out@.len() == i,
                forall|k: int| 0 <= k < i ==> panel_plan_matches(#[trigger] out@[k], lay[k], ms, totals_apart),
            decreases layout.panels@.len() - i,
        {
            assert(lay[i as int] == panels_view(layout.panels@)[i as int]);
            let plan = match &layout.panels[i] {
                Panel::Row { id, y, phase } => {
                    let mut title = to_uppercase(phase.as_str());
                    title.append(" Metrics");
                    PanelPlan { id: *id, x: 0, y: *y, w: 24, h: 1, content: PanelContent::Row { title } }
                },
                Panel::Metric { id, x, y, metric } => {
                    assert(lay[i as int] matches PanelView::Metric { .. });
                    assert(*metric < self.metrics@.len());
                    let mp = metric_panel(&self.metrics[*metric], totals_apart);
                    PanelPlan { id: *id, x: *x, y: *y, w: 12, h: 8, content: PanelContent::Metric(mp) }
                },
            };
            out.push(plan);
            i = i + 1;
        }
        DashboardPlan { title: self.title.clone(), datasource: self.datasource.clone(), panels: out }
    }

    /// The panel layout of the dashboard.
    pub fn layout(&self) -> (r: DashboardLayout)
        requires
            self.metrics@.len() < 0x4000_0000,
        ensures
            is_phase_order(views_of(r.phases@), self.metrics_view()),
            panels_view(r.panels@) == layout_spec(self.metrics_view(), views_of(r.phases@), 1, 0),
    {
        layout_panels(&self.metrics)
    }
}

/// The id of a panel.
pub open spec fn panel_id(p: PanelView) -> int {
    match p {
        PanelView::Row { id, .. } => id,
        PanelView::Metric { id, .. } => id,
    }
}

/// How many metric panels the phases `ps` get from the first `n` metrics.
pub open spec fn panel_total(ms: Seq<MetricDefView>, ps: Seq<Seq<char>>, n: int) -> int
    decreases ps.len(),
{
    if ps.len() == 0 {
        0
    } else {
        phase_indices(ms, ps[0], n).len() + panel_total(ms, ps.drop_first(), n)
    }
}

/// How many times `x` occurs in `ps`.
pub open spec fn occurrences(ps: Seq<Seq<char>>, x: Seq<char>) -> int
    decreases ps.len(),
{
    if ps.len() == 0 {
        0
    } else {
        (if ps[0] == x { 1int } else { 0int }) + occurrences(ps.drop_first(), x)
    }
}

proof fn lemma_layout_ids(ms: Seq<MetricDefView>, ps: Seq<Seq<char>>, id: int, y: int)
    ensures
        layout_spec(ms, ps, id, y).len() == ps.len() + panel_total(ms, ps, ms.len() as int),
        forall|i: int| 0 <= i < layout_spec(ms, ps, id, y).len() ==> panel_id(#[trigger] layout_spec(ms, ps, id, y)[i]) == id + i,
    decreases ps.len(),
{
    if ps.len() > 0 {
        let idx = phase_indices(ms, ps[0], ms.len() as int);
        let head = seq![PanelView::Row { id, y, phase: ps[0] }];
        let mp = metric_panels(idx, id + 1, y + 1);
        let rest_id = id + 1 + idx.len();
        let rest = layout_spec(ms, ps.drop_first(), rest_id, y + 1 + ((idx.len() + 1) / 2) * 8);
        lemma_layout_ids(ms, ps.drop_first(), rest_id, y + 1 + ((idx.len() + 1) / 2) * 8);
        let l = layout_spec(ms, ps, id, y);
        assert(l == head + mp + rest);
        assert forall|i: int| 0 <= i < l.len() implies panel_id(#[trigger] l[i]) == id + i by {
            if i == 0 {
                assert(l[i] == head[0]);
            } else if i <= idx.len() {
                assert(l[i] == mp[i - 1]);
            } else {
                assert(l[i] == rest[i - 1 - idx.len()]);
            }
        }
    }
}

proof fn lemma_total_step(ms: Seq<MetricDefView>, ps: Seq<Seq<char>>, n: int)
    requires
        0 <= n < ms.len(),
    ensures
        panel_total(ms, ps, n + 1) == panel_total(ms, ps, n) + occurrences(ps, ms[n].phase),
    decreases ps.len(),
{
    if ps.len() > 0 {
        lemma_total_step(ms, ps.drop_first(), n);
    }
}

proof fn lemma_occurs_once(ps: Seq<Seq<char>>, x: Seq<char>, k: int)
    requires
        0 <= k < ps.len(),
        ps[k] == x,
        forall|i: int, j: int| 0 <= i < j < ps.len() ==> lex_lt(ps[i], ps[j]),
    ensures
        occurrences(ps, x) == 1,
    decreases ps.len(),
{
    let d = ps.drop_first();
    assert forall|i: int, j: int| 0 <= i < j < d.len() implies lex_lt(d[i], d[j]) by {
        assert(d[i] == ps[i + 1] && d[j] == ps[j + 1]);
    }
    if k == 0 {
        assert(occurrences(d, x) == 0) by {
            lemma_absent(d, x, ps);
        }
    } else {
        if ps[0] == x {
            assert(lex_lt(ps[0], ps[k]));
            lemma_lex_irreflexive(x);
        }
        assert(d[k - 1] == x);
        lemma_occurs_once(d, x, k - 1);
    }
}

proof fn lemma_absent(d: Seq<Seq<char>>, x: Seq<char>, ps: Seq<Seq<char>>)
    requires
        ps.len() > 0,
        ps[0] == x,
        d == ps.drop_first(),
        forall|i: int, j: int| 0 <= i < j < ps.len() ==> lex_lt(ps[i], ps[j]),
    ensures
        occurrences(d, x) == 0,
    decreases d.len(),
{
    if d.len() > 0 {
        if d[0] == x {
            assert(lex_lt(ps[0], ps[1]));
            lemma_lex_irreflexive(x);
        }
        let ps2 = seq![x] + d.drop_first();
        assert(ps2.drop_first() =~= d.drop_first());
        assert forall|i: int, j: int| 0 <= i < j < ps2.len() implies lex_lt(ps2[i], ps2[j]) by {
            if i == 0 {
                assert(ps2[j] == ps[j + 1]);
                assert(lex_lt(ps[0], ps[j + 1]));
            } else {
                assert(ps2[i] == ps[i + 1] && ps2[j] == ps[j + 1]);
            }
        }
        lemma_absent(d.drop_first(), x, ps2);
    }
}

proof fn lemma_total_prefix(ms: Seq<MetricDefView>, ps: Seq<Seq<char>>, n: int)
    requires
        0 <= n <= ms.len(),
        forall|i: int, j: int| 0 <= i < j < ps.len() ==> lex_lt(ps[i], ps[j]),
        forall|j: int| 0 <= j < ms.len() ==> phase_listed(ps, #[trigger] ms[j].phase),
    ensures
        panel_total(ms, ps, n) == n,
    decreases n,
{
    if n == 0 {
        lemma_total_zero(ms, ps);
    } else {
        lemma_total_prefix(ms, ps, n - 1);
        lemma_total_step(ms, ps, n - 1);
        assert(phase_listed(ps, ms[n - 1].phase));
        reveal(phase_listed);
        let k = choose|k: int| 0 <= k < ps.len() && ps[k] == ms[n - 1].phase;
        lemma_occurs_once(ps, ms[n - 1].phase, k);
    }
}

proof fn lemma_total_zero(ms: Seq<MetricDefView>, ps: Seq<Seq<char>>)
    ensures
        panel_total(ms, ps, 0) == 0,
    decreases ps.len(),
{
    if ps.len() > 0 {
        lemma_total_zero(ms, ps.drop_first());
    }
}

/// The shape of a dashboard's layout: one row panel per phase and one panel
/// per metric, so as many panels as phases and metrics together, with ids
/// counting up from 1 in order.
pub proof fn lemma_layout_shape(ms: Seq<MetricDefView>, ps: Seq<Seq<char>>)
    requires
        is_phase_order(ps, ms),
    ensures
        layout_spec(ms, ps, 1, 0).len() == ps.len() + ms.len(),
        forall|i: int| 0 <= i < layout_spec(ms, ps, 1, 0).len() ==> panel_id(#[trigger] layout_spec(ms, ps, 1, 0)[i]) == i + 1,
{
    lemma_layout_ids(ms, ps, 1, 0);
    lemma_total_prefix(ms, ps, ms.len() as int);
}

/// The row phase of a panel, if it is a row.
pub open spec fn row_phase(v: PanelView) -> Option<Seq<char>> {
    match v {
        PanelView::Row { phase, .. } => Some(phase),
        _ => None,
    }
}

proof fn lemma_layout_split(ms: Seq<MetricDefView>, ps: Seq<Seq<char>>, id: int, y: int)
    requires
        ps.len() > 0,
    ensures
        ({
            let idx = phase_indices(ms, ps[0], ms.len() as int);
            let off = 1 + idx.len();
            let rest = layout_spec(ms, ps.drop_first(), id + off, y + 1 + ((idx.len() + 1) / 2) * 8);
            let l = layout_spec(ms, ps, id, y);
            &&& l.len() == off + rest.len()
            &&& row_phase(l[0]) == Some(ps[0])
            &&& forall|i: int| 0 < i < off ==> row_phase(#[trigger] l[i]) is None
            &&& forall|i: int| off <= i < l.len() ==> #[trigger] l[i] == rest[i - off]
        }),
{
    let idx = phase_indices(ms, ps[0], ms.len() as int);
    let head = seq![PanelView::Row { id, y, phase: ps[0] }];
    let mp = metric_panels(idx, id + 1, y + 1);
    let l = layout_spec(ms, ps, id, y);
    assert(l == head + mp + layout_spec(ms, ps.drop_first(), id + 1 + idx.len(), y + 1 + ((idx.len() + 1) / 2) * 8));
    assert forall|i: int| 0 < i < 1 + idx.len() implies row_phase(#[trigger] l[i]) is None by {
        assert(l[i] == mp[i - 1]);
    }
}

proof fn lemma_rows_listed(ms: Seq<MetricDefView>, ps: Seq<Seq<char>>, id: int, y: int)
    ensures
        forall|i: int| 0 <= i < layout_spec(ms, ps, id, y).len() && #[trigger] row_phase(layout_spec(ms, ps, id, y)[i]) is Some
            ==> exists|k: int| 0 <= k < ps.len() && Some(ps[k]) == row_phase(layout_spec(ms, ps, id, y)[i]),
    decreases ps.len(),
{
    if ps.len() > 0 {
        lemma_layout_split(ms, ps, id, y);
        let idx = phase_indices(ms, ps[0], ms.len() as int);
        let off = 1 + idx.len();
        let d = ps.drop_first();
        let rest = layout_spec(ms, d, id + off, y + 1 + ((idx.len() + 1) / 2) * 8);
        lemma_rows_listed(ms, d, id + off, y + 1 + ((idx.len() + 1) / 2) * 8);
        let l = layout_spec(ms, ps, id, y);
        assert forall|i: int| 0 <= i < l.len() && #[trigger] row_phase(l[i]) is Some implies exists|k: int| 0 <= k < ps.len()
            && Some(ps[k]) == row_phase(l[i]) by {
            if i >= off {
                assert(l[i] == rest[i - off]);
                let k = choose|k: int| 0 <= k < d.len() && Some(d[k]) == row_phase(rest[i - off]);
                assert(ps[k + 1] == d[k]);
            }
        }
    }
}

proof fn lemma_rows_ordered(ms: Seq<MetricDefView>, ps: Seq<Seq<char>>, id: int, y: int)
    ensures
        forall|i1: int, i2: int| 0 <= i1 < i2 < layout_spec(ms, ps, id, y).len() && #[trigger] row_phase(layout_spec(ms, ps, id, y)[i1]) is Some
            && #[trigger] row_phase(layout_spec(ms, ps, id, y)[i2]) is Some ==> exists|k1: int, k2: int| 0 <= k1 < k2 < ps.len()
            && Some(ps[k1]) == row_phase(layout_spec(ms, ps, id, y)[i1]) && Some(ps[k2]) == row_phase(layout_spec(ms, ps, id, y)[i2]),
    decreases ps.len(),
{
    if ps.len() > 0 {
        lemma_layout_split(ms, ps, id, y);
        let idx = phase_indices(ms, ps[0], ms.len() as int);
        let off = 1 + idx.len();
        let d = ps.drop_first();
        let ry = y + 1 + ((idx.len() + 1) / 2) * 8;
        let rest = layout_spec(ms, d, id + off, ry);
        lemma_rows_ordered(ms, d, id + off, ry);
        lemma_rows_listed(ms, d, id + off, ry);
        let l = layout_spec(ms, ps, id, y);
        assert forall|i1: int, i2: int| 0 <= i1 < i2 < l.len() && #[trigger] row_phase(l[i1]) is Some && #[trigger] row_phase(l[i2]) is Some
            implies exists|k1: int, k2: int| 0 <= k1 < k2 < ps.len() && Some(ps[k1]) == row_phase(l[i1]) && Some(ps[k2]) == row_phase(l[i2]) by {
            assert(i2 >= off);
            assert(l[i2] == rest[i2 - off]);
            if i1 == 0 {
                let k = choose|k: int| 0 <= k < d.len() && Some(d[k]) == row_phase(rest[i2 - off]);
                assert(ps[k + 1] == d[k]);
            } else {
                assert(i1 >= off);
                assert(l[i1] == rest[i1 - off]);
                let (k1, k2) = choose|k1: int, k2: int| 0 <= k1 < k2 < d.len() && Some(d[k1]) == row_phase(rest[i1 - off])
                    && Some(d[k2]) == row_phase(rest[i2 - off]);
                assert(ps[k1 + 1] == d[k1] && ps[k2 + 1] == d[k2]);
            }
        }
    }
}

proof fn lemma_rows_cover(ms: Seq<MetricDefView>, ps: Seq<Seq<char>>, id: int, y: int)
    ensures
        forall|k: int| 0 <= k < ps.len() ==> exists|i: int| 0 <= i < layout_spec(ms, ps, id, y).len()
            && row_phase(layout_spec(ms, ps, id, y)[i]) == Some(#[trigger] ps[k]),
    decreases ps.len(),
{
    if ps.len() > 0 {
        lemma_layout_split(ms, ps, id, y);
        let idx = phase_indices(ms, ps[0], ms.len() as int);
        let off = 1 + idx.len();
        let d = ps.drop_first();
        let ry = y + 1 + ((idx.len() + 1) / 2) * 8;
        let rest = layout_spec(ms, d, id + off, ry);
        lemma_rows_cover(ms, d, id + off, ry);
        let l = layout_spec(ms, ps, id, y);
        assert forall|k: int| 0 <= k < ps.len() implies exists|i: int| 0 <= i < l.len() && row_phase(l[i]) == Some(#[trigger] ps[k]) by {
            if k > 0 {
                assert(d[k - 1] == ps[k]);
                let i = choose|i: int| 0 <= i < rest.len() && row_phase(rest[i]) == Some(d[k - 1]);
                assert(l[i + off] == rest[i]);
            }
        }
    }
}

/// The shape of a built dashboard: as many panels as phases and metrics
/// together, ids counting up from 1; one row panel per phase, titled with
/// the phase in capitals and ` Metrics`, the rows in the phases' sorted
/// order, each followed by the panels of its phase's metrics.
pub proof fn lemma_dashboard_shape(plan: DashboardPlan, ms: Seq<MetricDefView>, phases: Seq<Seq<char>>, totals_apart: bool)
    requires
        is_phase_order(phases, ms),
        plan.panels@.len() == layout_spec(ms, phases, 1, 0).len(),
        forall|i: int| 0 <= i < plan.panels@.len() ==> panel_plan_matches(#[trigger] plan.panels@[i], layout_spec(ms, phases, 1, 0)[i],
            ms, totals_apart),
    ensures
        plan.panels@.len() == phases.len() + ms.len(),
        forall|i: int| 0 <= i < plan.panels@.len() ==> (#[trigger] plan.panels@[i]).id == i + 1,
        forall|i: int| 0 <= i < plan.panels@.len() ==> ((#[trigger] plan.panels@[i]).content is Row
            <==> row_phase(layout_spec(ms, phases, 1, 0)[i]) is Some),
        forall|i: int| 0 <= i < plan.panels@.len() && #[trigger] row_phase(layout_spec(ms, phases, 1, 0)[i]) is Some
            ==> (plan.panels@[i].content matches PanelContent::Row { title }
                && title@ == uppercase_of(row_phase(layout_spec(ms, phases, 1, 0)[i])->0) + " Metrics"@),
        forall|k: int| 0 <= k < phases.len() ==> exists|i: int| 0 <= i < plan.panels@.len()
            && row_phase(layout_spec(ms, phases, 1, 0)[i]) == Some(#[trigger] phases[k]),
        forall|i1: int, i2: int| 0 <= i1 < i2 < plan.panels@.len() && #[trigger] row_phase(layout_spec(ms, phases, 1, 0)[i1]) is Some
            && #[trigger] row_phase(layout_spec(ms, phases, 1, 0)[i2]) is Some ==> lex_lt(
                row_phase(layout_spec(ms, phases, 1, 0)[i1])->0,
                row_phase(layout_spec(ms, phases, 1, 0)[i2])->0,
            ),
{
    let l = layout_spec(ms, phases, 1, 0);
    lemma_layout_shape(ms, phases);
    lemma_rows_ordered(ms, phases, 1, 0);
    lemma_rows_cover(ms, phases, 1, 0);
    assert forall|i: int| 0 <= i < plan.panels@.len() implies (#[trigger] plan.panels@[i]).id == i + 1 by {
        assert(panel_plan_matches(plan.panels@[i], l[i], ms, totals_apart));
        assert(panel_id(l[i]) == i + 1);
    }
    assert forall|i: int| 0 <= i < plan.panels@.len() implies ((#[trigger] plan.panels@[i]).content is Row <==> row_phase(l[i]) is Some) by {
        assert(panel_plan_matches(plan.panels@[i], l[i], ms, totals_apart));
    }
    assert forall|i: int| 0 <= i < plan.panels@.len() && #[trigger] row_phase(l[i]) is Some implies (plan.panels@[i].content matches
        PanelContent::Row { title } && title@ == uppercase_of(row_phase(l[i])->0) + " Metrics"@) by {
        assert(panel_plan_matches(plan.panels@[i], l[i], ms, totals_apart));
    }
    assert forall|i1: int, i2: int| 0 <= i1 < i2 < plan.panels@.len() && #[trigger] row_phase(l[i1]) is Some && #[trigger] row_phase(l[i2]) is Some
        implies lex_lt(row_phase(l[i1])->0, row_phase(l[i2])->0) by {
        let (k1, k2) = choose|k1: int, k2: int| 0 <= k1 < k2 < phases.len() && Some(phases[k1]) == row_phase(l[i1])
            && Some(phases[k2]) == row_phase(l[i2]);
    }
}

/// A histogram's panel is a quantile graph in the metric's unit (`short`
/// when it has none) that plots its p50, p95 and p99 lines, each the
/// Prometheus quantile over the rate of the histogram's `_bucket` series
/// grouped by `le`; a counter shown as a graph plots the rate of the counter
/// itself in operations per second (titled with ` (Rate)` where totals are
/// shown apart); where totals are shown apart, a counter whose name holds
/// `_total`, `extracted` or `ingested`, or whose description mentions a
/// total, is instead a stat of the counter itself; a gauge is a stat of the
/// gauge itself in its unit.
pub proof fn lemma_panel_queries(m: MetricDefView, totals_apart: bool)
    ensures
        m.metric_type == MetricType::Histogram ==> metric_panel_spec(m, totals_apart).0 == PanelStyle::QuantileGraph
            && metric_panel_spec(m, totals_apart).2 == (match m.unit {
                Some(u) => u,
                None => "short"@,
            }),
        m.metric_type == MetricType::Gauge ==> metric_panel_spec(m, totals_apart).0 == PanelStyle::GaugeStat
            && metric_panel_spec(m, totals_apart).3 == seq![(m.name, "{{instance}}"@, "A"@)]
            && metric_panel_spec(m, totals_apart).2 == (match m.unit {
                Some(u) => u,
                None => "short"@,
            }),
        m.metric_type == MetricType::Counter && metric_panel_spec(m, totals_apart).0 == PanelStyle::RateGraph
            ==> metric_panel_spec(m, totals_apart).2 == "ops"@,
        m.metric_type == MetricType::Counter && totals_apart && (contains_spec(m.name, "_total"@) || contains_spec(m.name,
            "extracted"@) || contains_spec(m.name, "ingested"@) || contains_spec(lowercase_of(m.description), "total"@))
            ==> metric_panel_spec(m, totals_apart) == (PanelStyle::TotalStat, m.description, "short"@, seq![(m.name,
            "{{instance}}"@, "A"@)]),
        m.metric_type == MetricType::Counter && totals_apart && !(contains_spec(m.name, "_total"@) || contains_spec(m.name,
            "extracted"@) || contains_spec(m.name, "ingested"@) || contains_spec(lowercase_of(m.description), "total"@))
            ==> metric_panel_spec(m, totals_apart).0 == PanelStyle::RateGraph && metric_panel_spec(m, totals_apart).1
            == m.description + " (Rate)"@,
        m.metric_type == MetricType::Counter && !totals_apart ==> metric_panel_spec(m, totals_apart).0 == PanelStyle::RateGraph
            && metric_panel_spec(m, totals_apart).1 == m.description,
        m.metric_type == MetricType::Histogram ==> metric_panel_spec(m, totals_apart).3 == seq![
            ("histogram_quantile(0.5, sum(rate("@ + m.name + "_bucket[5m])) by (le))"@, "p50"@, "A"@),
            ("histogram_quantile(0.95, sum(rate("@ + m.name + "_bucket[5m])) by (le))"@, "p95"@, "B"@),
            ("histogram_quantile(0.99, sum(rate("@ + m.name + "_bucket[5m])) by (le))"@, "p99"@, "C"@),
        ],
        m.metric_type == MetricType::Counter && metric_panel_spec(m, totals_apart).0 == PanelStyle::RateGraph
            ==> metric_panel_spec(m, totals_apart).3 == seq![("rate("@ + m.name + "[5m])"@, "{{instance}}"@, "A"@)],
{
    if m.metric_type == MetricType::Histogram {
        assert("histogram_quantile("@ + "0.5"@ + ", sum(rate("@ + m.name + "_bucket[5m])) by (le))"@
            =~= "histogram_quantile(0.5, sum(rate("@ + m.name + "_bucket[5m])) by (le))"@) by {
            reveal_strlit("histogram_quantile(");
            reveal_strlit("0.5");
            reveal_strlit(", sum(rate(");
            reveal_strlit("histogram_quantile(0.5, sum(rate(");
        }
        assert("histogram_quantile("@ + "0.95"@ + ", sum(rate("@ + m.name + "_bucket[5m])) by (le))"@
            =~= "histogram_quantile(0.95, sum(rate("@ + m.name + "_bucket[5m])) by (le))"@) by {
            reveal_strlit("histogram_quantile(");
            reveal_strlit("0.95");
            reveal_strlit(", sum(rate(");
            reveal_strlit("histogram_quantile(0.95, sum(rate(");
        }
        assert("histogram_quantile("@ + "0.99"@ + ", sum(rate("@ + m.name + "_bucket[5m])) by (le))"@
            =~= "histogram_quantile(0.99, sum(rate("@ + m.name + "_bucket[5m])) by (le))"@) by {
            reveal_strlit("histogram_quantile(");
            reveal_strlit("0.99");
            reveal_strlit(", sum(rate(");
            reveal_strlit("histogram_quantile(0.99, sum(rate(");
        }
    }
}

/// In a built dashboard, every histogram's panel carries those three
/// quantile queries over its `_bucket` series.
pub proof fn lemma_dashboard_histogram_queries(plan: DashboardPlan, ms: Seq<MetricDefView>, phases: Seq<Seq<char>>, totals_apart: bool, i: int)
    requires
        0 <= i < plan.panels@.len(),
        plan.panels@.len() == layout_spec(ms, phases, 1, 0).len(),
        forall|k: int| 0 <= k < plan.panels@.len() ==> panel_plan_matches(#[trigger] plan.panels@[k], layout_spec(ms, phases, 1, 0)[k],
            ms, totals_apart),
        layout_spec(ms, phases, 1, 0)[i] matches PanelView::Metric { metric, .. } && ms[metric].metric_type == MetricType::Histogram,
    ensures
        plan.panels@[i].content matches PanelContent::Metric(mp) && mp.targets@.map_values(|t: PanelTarget| t.expr@) == seq![
            "histogram_quantile(0.5, sum(rate("@ + ms[layout_spec(ms, phases, 1, 0)[i]->metric].name + "_bucket[5m])) by (le))"@,
            "histogram_quantile(0.95, sum(rate("@ + ms[layout_spec(ms, phases, 1, 0)[i]->metric].name + "_bucket[5m])) by (le))"@,
            "histogram_quantile(0.99, sum(rate("@ + ms[layout_spec(ms, phases, 1, 0)[i]->metric].name + "_bucket[5m])) by (le))"@,
        ],
{
    let mi = layout_spec(ms, phases, 1, 0)[i]->metric;
    assert(panel_plan_matches(plan.panels@[i], layout_spec(ms, phases, 1, 0)[i], ms, totals_apart));
    lemma_panel_queries(ms[mi], totals_apart);
    let mp = plan.panels@[i].content->Metric_0;
    let tv = mp.targets@.map_values(|t: PanelTarget| (t.expr@, t.legend_format@, t.ref_id@));
    assert(tv == metric_panel_spec(ms[mi], totals_apart).3);
    assert(mp.targets@.map_values(|t: PanelTarget| t.expr@) =~= seq![tv[0].0, tv[1].0, tv[2].0]);
}

} // verus!
