//! Metrics system configuration, heartbeat and Pushgateway addressing.

use super::{counter_op, op_labels, op_view, MetricOp, MetricType};
use crate::text::{chars_of, decimal_spec, from_chars, i64_text, owned, signed_decimal_spec, u64_text};
use metrics_exporter_prometheus::PrometheusHandle;
use vstd::prelude::*;
use vstd::string::*;

verus! {

/// The Prometheus exporter's handle for in-process rendering.
#[verifier::external_type_specification]
#[verifier::external_body]
pub struct ExPrometheusHandle(PrometheusHandle);

/// Renders the recorder's current metrics in the Prometheus text format
/// (`PrometheusHandle::render`).  The text depends on every update the
/// process has recorded, so nothing is stated of it.
#[verifier::external_body]
fn render_handle(handle: &PrometheusHandle) -> (r: String) {
    handle.render()
}

/// Core metrics configuration.
pub struct MetricsConfig {
    /// Address to bind the HTTP metrics server (e.g. "127.0.0.1:9898").
    pub http_addr: Option<String>,
    /// URL of the Pushgateway for pushing metrics.
    pub pushgateway_url: Option<String>,
    /// Job name for Pushgateway metrics.
    pub job_name: String,
    /// Whether to enable debug logging for metrics.
    pub debug: bool,
}

impl MetricsConfig {
    /// The configuration for the given values of the `PROMETHEUS_ADDR` and
    /// `SMS_PUSHGATEWAY_URL` settings (absent when `None`).
    pub fn from_settings(prometheus_addr: Option<String>, pushgateway_url: Option<String>) -> (r: Self)
        ensures
            prometheus_addr.is_some() ==> r.http_addr == prometheus_addr,
            prometheus_addr.is_none() ==> r.http_addr.is_some() && r.http_addr.unwrap()@ == "127.0.0.1:9898"@,
            r.pushgateway_url == pushgateway_url,
            r.job_name@ == "sms_scraper"@,
            !r.debug,
    {
        let http_addr = match prometheus_addr {
            Some(a) => Some(a),
            None => Some(owned("127.0.0.1:9898")),
        };
        MetricsConfig { http_addr, pushgateway_url, job_name: owned("sms_scraper"), debug: false }
    }
}

impl Default for MetricsConfig {
    /// The configuration when neither setting is given.
    fn default() -> (r: Self)
        ensures
            r.http_addr.is_some() && r.http_addr.unwrap()@ == "127.0.0.1:9898"@,
            r.pushgateway_url.is_none(),
            r.job_name@ == "sms_scraper"@,
            !r.debug,
    {
        Self::from_settings(None, None)
    }
}

/// Metrics system manager.
pub struct MetricsSystem {
    pub config: MetricsConfig,
    pub handle: Option<PrometheusHandle>,
    /// Whether the HTTP metrics server was started with the recorder.
    pub serving: bool,
}

/// Removes every trailing `/`.
pub open spec fn trim_trailing_slashes(s: Seq<char>) -> Seq<char>
    decreases s.len(),
{
    if s.len() > 0 && s.last() == '/' {
        trim_trailing_slashes(s.drop_last())
    } else {
        s
    }
}

/// The Pushgateway URL for `job` and `instance` under `base`.
pub open spec fn push_url_spec(base: Seq<char>, job: Seq<char>, instance: Seq<char>) -> Seq<char> {
    trim_trailing_slashes(base) + "/metrics/job/"@ + job + "/instance/"@ + instance
}

/// `base` without its trailing slashes.
pub fn trim_end_slashes(base: &str) -> (r: String)
    ensures
        r@ == trim_trailing_slashes(base@),
{
    let cs = chars_of(base);
    let mut n = cs.len();
    assert(cs@.subrange(0, n as int) =~= cs@);
    while n > 0 && cs[n - 1] == '/'
        invariant
            n <= cs@.len(),
            trim_trailing_slashes(cs@.subrange(0, n as int)) == trim_trailing_slashes(base@),
        decreases n,
    {
        assert(cs@.subrange(0, n - 1) =~= cs@.subrange(0, n as int).drop_last());
        n = n - 1;
    }
    let mut out: Vec<char> = Vec::new();
    let mut i: usize = 0;
    while i < n
        invariant
            n <= cs@.len(),
            i <= n,
            out@ == cs@.subrange(0, i as int),
        decreases n - i,
    {
        out.push(cs[i]);
        assert(out@ =~= cs@.subrange(0, i + 1));
        i = i + 1;
    }
    assert(trim_trailing_slashes(cs@.subrange(0, n as int)) == cs@.subrange(0, n as int));
    from_chars(&out)
}

/// Builds `{base without trailing '/'}/metrics/job/{job}/instance/{instance}`.
pub fn push_url(base: &str, job: &str, instance: &str) -> (r: String)
    ensures
        r@ == push_url_spec(base@, job@, instance@),
{
    trim_end_slashes(base).concat("/metrics/job/").concat(job).concat("/instance/").concat(instance)
}

/// Why a push to the Pushgateway cannot be made.
#[derive(Debug, PartialEq, Eq, Structural)]
pub enum PushError {
    PushgatewayNotConfigured,
    NoMetricsAvailable,
}

impl MetricsSystem {
    /// A metrics system with the default configuration: the metrics server
    /// address `127.0.0.1:9898`, no Pushgateway, job `sms_scraper`, no debug
    /// logging.
    pub fn new() -> (r: Self)
        ensures
            r.config.http_addr.is_some() && r.config.http_addr.unwrap()@ == "127.0.0.1:9898"@,
            r.config.job_name@ == "sms_scraper"@,
            r.config.pushgateway_url.is_none(),
            !r.config.debug,
            !r.has_handle(),
            !r.serving,
    {
        Self::with_config(MetricsConfig::default())
    }

    /// A metrics system with the given configuration and no recorder yet.
    pub fn with_config(config: MetricsConfig) -> (r: Self)
        ensures
            r.config == config,
            !r.has_handle(),
            !r.serving,
    {
        MetricsSystem { config, handle: None, serving: false }
    }

    /// Whether an installed recorder's handle is attached.
    pub open spec fn has_handle(&self) -> bool {
        self.handle.is_some()
    }

    /// Attaches the handle of the installed Prometheus recorder, and
    /// whether its HTTP metrics server was started.
    pub fn attach_handle(&mut self, handle: PrometheusHandle, serving: bool)
        ensures
            final(self).has_handle(),
            final(self).serving == serving,
            final(self).config == old(self).config,
    {
        self.handle = Some(handle);
        self.serving = serving;
    }

    /// The heartbeat counter update.
    pub fn record_heartbeat(&self) -> (r: MetricOp)
        ensures
            op_view(r) == (MetricType::Counter, "sms_runs_heartbeat_total"@, 1u64),
            op_labels(r).len() == 0,
    {
        counter_op(owned("sms_runs_heartbeat_total"), 1)
    }

    /// The current metrics in the Prometheus text format; `None` unless a
    /// recorder is attached and its HTTP metrics server is running.
    pub fn render_metrics(&self) -> (r: Option<String>)
        ensures
            r.is_some() == (self.has_handle() && self.serving),
    {
        if !self.serving {
            return None;
        }
        match &self.handle {
            Some(h) => Some(render_handle(h)),
            None => None,
        }
    }

    /// The URL to push this system's metrics to, for `instance`.
    pub fn push_target(&self, instance: &str) -> (r: Result<String, PushError>)
        ensures
            self.config.pushgateway_url.is_none() ==> r == Err::<String, PushError>(PushError::PushgatewayNotConfigured),
            self.config.pushgateway_url.is_some() ==> r.is_ok()
                && r.unwrap()@ == push_url_spec(self.config.pushgateway_url.unwrap()@, self.config.job_name@, instance@),
    {
        match &self.config.pushgateway_url {
            None => Err(PushError::PushgatewayNotConfigured),
            Some(base) => Ok(push_url(base.as_str(), self.config.job_name.as_str(), instance)),
        }
    }

    /// The URL and body of a push of all current metrics for `instance`:
    /// refused without a Pushgateway URL, then without metrics to render.
    pub fn push_request(&self, instance: &str) -> (r: Result<(String, String), PushError>)
        ensures
            self.config.pushgateway_url.is_none() ==> r == Err::<(String, String), PushError>(PushError::PushgatewayNotConfigured),
            self.config.pushgateway_url.is_some() && !(self.has_handle() && self.serving) ==> r == Err::<(String, String), PushError>(PushError::NoMetricsAvailable),
            self.config.pushgateway_url.is_some() && self.has_handle() && self.serving ==> r is Ok
                && r->Ok_0.0@ == push_url_spec(self.config.pushgateway_url.unwrap()@, self.config.job_name@, instance@),
    {
        let url = match self.push_target(instance) {
            Ok(u) => u,
            Err(e) => return Err(e),
        };
        match self.render_metrics() {
            Some(body) => Ok((url, body)),
            None => Err(PushError::NoMetricsAvailable),
        }
    }

    /// The URL and body of the ingest push for `source_id` (its instance):
    /// refused without a Pushgateway URL.
    pub fn push_ingest_request(
        &self,
        source_id: &str,
        timestamp: i64,
        bytes: usize,
        nanos: u64,
        duration_text: &str,
        success: bool,
        envelope_id: &str,
    ) -> (r: Result<(String, String), PushError>)
        ensures
            self.config.pushgateway_url.is_none() ==> r == Err::<(String, String), PushError>(PushError::PushgatewayNotConfigured),
            self.config.pushgateway_url.is_some() ==> r is Ok
                && r->Ok_0.0@ == push_url_spec(self.config.pushgateway_url.unwrap()@, self.config.job_name@, source_id@)
                && r->Ok_0.1@ == ingest_metrics_text(timestamp, bytes, nanos, duration_text@, success, envelope_id@),
    {
        match self.push_target(source_id) {
            Ok(url) => Ok((url, format_ingest_metrics(timestamp, bytes, nanos, duration_text, success, envelope_id))),
            Err(e) => Err(e),
        }
    }
}

/// `1` when a duration of `nanos` nanoseconds falls in the histogram bucket
/// bounded by `limit` nanoseconds, else `0`.
pub open spec fn bucket_text(nanos: u64, limit: u64) -> Seq<char> {
    if nanos <= limit { "1"@ } else { "0"@ }
}

/// The Prometheus text pushed after one ingest: the run's timestamp, one run,
/// its success or failure, its bytes, and a one-sample duration histogram
/// whose buckets are bounded at 0.1, 0.5, 1, 5 and 10 seconds, whose sum is
/// `duration_text` (the duration in seconds), followed by the envelope id
/// as a comment.
pub open spec fn ingest_metrics_text(
    timestamp: i64,
    bytes: usize,
    nanos: u64,
    duration_text: Seq<char>,
    success: bool,
    envelope_id: Seq<char>,
) -> Seq<char> {
    "# HELP sms_ingest_run_timestamp_ms Last run timestamp in milliseconds\n# TYPE sms_ingest_run_timestamp_ms gauge\nsms_ingest_run_timestamp_ms "@
        + signed_decimal_spec(timestamp as int)
        + "\n\n# HELP sms_ingest_runs_total Total number of ingest runs\n# TYPE sms_ingest_runs_total counter\nsms_ingest_runs_total 1\n\n# HELP sms_ingest_success_total Total number of successful ingests\n# TYPE sms_ingest_success_total counter\nsms_ingest_success_total "@
        + (if success { "1"@ } else { "0"@ })
        + "\n\n# HELP sms_ingest_failure_total Total number of failed ingests\n# TYPE sms_ingest_failure_total counter\nsms_ingest_failure_total "@
        + (if success { "0"@ } else { "1"@ })
        + "\n\n# HELP sms_ingest_bytes_total Total bytes ingested\n# TYPE sms_ingest_bytes_total counter\nsms_ingest_bytes_total "@
        + decimal_spec(bytes as nat)
        + "\n\n# HELP sms_ingest_last_bytes Size of last ingest in bytes\n# TYPE sms_ingest_last_bytes gauge\nsms_ingest_last_bytes "@
        + decimal_spec(bytes as nat)
        + "\n\n# HELP sms_ingest_duration_seconds Duration of ingest operation\n# TYPE sms_ingest_duration_seconds histogram\nsms_ingest_duration_seconds_bucket{le=\"0.1\"} "@
        + bucket_text(nanos, 100_000_000)
        + "\nsms_ingest_duration_seconds_bucket{le=\"0.5\"} "@
        + bucket_text(nanos, 500_000_000)
        + "\nsms_ingest_duration_seconds_bucket{le=\"1\"} "@
        + bucket_text(nanos, 1_000_000_000)
        + "\nsms_ingest_duration_seconds_bucket{le=\"5\"} "@
        + bucket_text(nanos, 5_000_000_000)
        + "\nsms_ingest_duration_seconds_bucket{le=\"10\"} "@
        + bucket_text(nanos, 10_000_000_000)
        + "\nsms_ingest_duration_seconds_bucket{le=\"+Inf\"} 1\nsms_ingest_duration_seconds_sum "@
        + duration_text
        + "\nsms_ingest_duration_seconds_count 1\n\n# NOTE: Envelope ID stored as comment (Prometheus doesn't support text metrics)\n# last_envelope_id=\""@
        + envelope_id
        + "\"\n"@
}

/// The bucket text for a duration of `nanos` against `limit`.
fn bucket(nanos: u64, limit: u64) -> (r: &'static str)
    ensures
        r@ == bucket_text(nanos, limit),
{
    if nanos <= limit { "1" } else { "0" }
}

/// The Prometheus text pushed after an ingest of `bytes` bytes at
/// `timestamp` (milliseconds) that took `nanos` nanoseconds, written in
/// seconds as `duration_text`.
pub fn format_ingest_metrics(
    timestamp: i64,
    bytes: usize,
    nanos: u64,
    duration_text: &str,
    success: bool,
    envelope_id: &str,
) -> (r: String)
    ensures
        r@ == ingest_metrics_text(timestamp, bytes, nanos, duration_text@, success, envelope_id@),
{
    let mut out = String::new();
    out.append("# HELP sms_ingest_run_timestamp_ms Last run timestamp in milliseconds\n# TYPE sms_ingest_run_timestamp_ms gauge\nsms_ingest_run_timestamp_ms ");
    out.append(i64_text(timestamp).as_str());
    out.append("\n\n# HELP sms_ingest_runs_total Total number of ingest runs\n# TYPE sms_ingest_runs_total counter\nsms_ingest_runs_total 1\n\n# HELP sms_ingest_success_total Total number of successful ingests\n# TYPE sms_ingest_success_total counter\nsms_ingest_success_total ");
    out.append(if success { "1" } else { "0" });
    out.append("\n\n# HELP sms_ingest_failure_total Total number of failed ingests\n# TYPE sms_ingest_failure_total counter\nsms_ingest_failure_total ");
    out.append(if success { "0" } else { "1" });
    out.append("\n\n# HELP sms_ingest_bytes_total Total bytes ingested\n# TYPE sms_ingest_bytes_total counter\nsms_ingest_bytes_total ");
    let b = u64_text(bytes as u64);
    out.append(b.as_str());
    out.append("\n\n# HELP sms_ingest_last_bytes Size of last ingest in bytes\n# TYPE sms_ingest_last_bytes gauge\nsms_ingest_last_bytes ");
    out.append(b.as_str());
    out.append("\n\n# HELP sms_ingest_duration_seconds Duration of ingest operation\n# TYPE sms_ingest_duration_seconds histogram\nsms_ingest_duration_seconds_bucket{le=\"0.1\"} ");
    out.append(bucket(nanos, 100_000_000));
    out.append("\nsms_ingest_duration_seconds_bucket{le=\"0.5\"} ");
    out.append(bucket(nanos, 500_000_000));
    out.append("\nsms_ingest_duration_seconds_bucket{le=\"1\"} ");
    out.append(bucket(nanos, 1_000_000_000));
    out.append("\nsms_ingest_duration_seconds_bucket{le=\"5\"} ");
    out.append(bucket(nanos, 5_000_000_000));
    out.append("\nsms_ingest_duration_seconds_bucket{le=\"10\"} ");
    out.append(bucket(nanos, 10_000_000_000));
    out.append("\nsms_ingest_duration_seconds_bucket{le=\"+Inf\"} 1\nsms_ingest_duration_seconds_sum ");
    out.append(duration_text);
    out.append("\nsms_ingest_duration_seconds_count 1\n\n# NOTE: Envelope ID stored as comment (Prometheus doesn't support text metrics)\n# last_envelope_id=\"");
    out.append(envelope_id);
    out.append("\"\n");
    out
}

/// The heartbeat counter update.
pub fn heartbeat() -> (r: MetricOp)
    ensures
        op_view(r) == (MetricType::Counter, "sms_runs_heartbeat_total"@, 1u64),
        op_labels(r).len() == 0,
{
    counter_op(owned("sms_runs_heartbeat_total"), 1)
}

} // verus!
