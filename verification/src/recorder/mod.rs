//! Flat recording API of the pipeline: each function returns the recorder
//! update that the call stands for, which the host applies and pushes.

pub mod gateway;
pub mod ingest_log;
pub mod parser;
pub mod sources;

use crate::metrics::system::{push_url, push_url_spec};
use crate::metrics::{op_labels, op_view, MetricOp, MetricType};
use crate::text::{decimal_spec, owned, u64_text};
use vstd::prelude::*;

verus! {

/// Push options resolved for the process-wide recorder.
pub struct PushOptions {
    pub job: String,
    pub instance: String,
}

/// The job and instance labels used when none are given.
pub fn push_options(job_name: Option<&str>, instance: Option<&str>) -> (r: PushOptions)
    ensures
        r.job@ == (match job_name { Some(j) => j@, None => "sms_scraper"@ }),
        r.instance@ == (match instance { Some(i) => i@, None => "default"@ }),
{
    let job = match job_name {
        Some(j) => owned(j),
        None => owned("sms_scraper"),
    };
    let inst = match instance {
        Some(i) => owned(i),
        None => owned("default"),
    };
    PushOptions { job, instance: inst }
}

/// The push options of the default initialisation: job `sms_scraper`,
/// instance `default`.
pub fn init() -> (r: PushOptions)
    ensures
        r.job@ == "sms_scraper"@,
        r.instance@ == "default"@,
{
    push_options(None, None)
}

/// The Prometheus type word of a metric kind.
pub open spec fn type_word(kind: MetricType) -> Seq<char> {
    match kind {
        MetricType::Counter => "counter"@,
        MetricType::Gauge => "gauge"@,
        MetricType::Histogram => "histogram"@,
    }
}

/// The text exposition of one sample: its type line, then name and value.
pub open spec fn single_metric_text(name: Seq<char>, kind: MetricType, value: nat) -> Seq<char> {
    "# TYPE "@ + name + " "@ + type_word(kind) + "\n"@ + name + " "@ + decimal_spec(value) + "\n"@
}

fn type_word_of(kind: MetricType) -> (r: &'static str)
    ensures
        r@ == type_word(kind),
{
    match kind {
        MetricType::Counter => "counter",
        MetricType::Gauge => "gauge",
        MetricType::Histogram => "histogram",
    }
}

/// The Pushgateway request that pushes a counter or gauge sample at once,
/// when a Pushgateway is configured at `pushgateway_url`: the URL of the
/// options' job and instance under it, and a body with the sample's type
/// line and its amount as the value. Without a Pushgateway there is none;
/// histogram samples are not pushed this way.
pub fn single_push_request(options: &PushOptions, pushgateway_url: &Option<String>, op: &MetricOp) -> (r: Option<(String, String)>)
    ensures
        (pushgateway_url is None || op_view(*op).0 == MetricType::Histogram) ==> r is None,
        pushgateway_url is Some && op_view(*op).0 != MetricType::Histogram ==> (r matches Some((url, body))
            && url@ == push_url_spec(pushgateway_url->0@, options.job@, options.instance@)
            && body@ == single_metric_text(op_view(*op).1, op_view(*op).0, op_view(*op).2 as nat)),
{
    let (kind, name, value) = match op {
        MetricOp::IncrementCounter { name, amount, .. } => (MetricType::Counter, name, *amount),
        MetricOp::SetGauge { name, value } => (MetricType::Gauge, name, *value),
        MetricOp::RecordHistogram { name, value, .. } => (MetricType::Histogram, name, *value),
        MetricOp::RecordDuration { name, nanos, .. } => (MetricType::Histogram, name, *nanos),
    };
    match pushgateway_url {
        None => None,
        Some(base) => {
            if kind == MetricType::Histogram {
                return None;
            }
            let url = push_url(base.as_str(), options.job.as_str(), options.instance.as_str());
            let mut body = owned("# TYPE ");
            body.append(name.as_str());
            body.append(" ");
            body.append(type_word_of(kind));
            body.append("\n");
            body.append(name.as_str());
            body.append(" ");
            let v = u64_text(value);
            body.append(v.as_str());
            body.append("\n");
            Some((url, body))
        },
    }
}

} // verus!
