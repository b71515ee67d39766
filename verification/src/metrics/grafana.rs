//! The Grafana JSON of a dashboard plan, written compactly with the keys of
//! every object in sorted order, as `serde_json` writes a JSON value.

use super::dashboard::{metric_panel_view, DashboardPlan, MetricPanel, PanelContent, PanelPlan, PanelStyle, PanelTarget};
use crate::json::{quoted_spec, write_quoted};
use crate::text::{decimal_spec, u64_text};
use vstd::prelude::*;
use vstd::string::*;

verus! {

/// The texts of `parts` separated by commas.
pub open spec fn comma_joined(parts: Seq<Seq<char>>) -> Seq<char>
    decreases parts.len(),
{
    if parts.len() == 0 {
        Seq::empty()
    } else if parts.len() == 1 {
        parts[0]
    } else {
        comma_joined(parts.drop_last()) + ","@ + parts.last()
    }
}

/// A query of a panel: `{"expr":..,"legendFormat":..,"refId":..}`.
pub open spec fn target_text(t: (Seq<char>, Seq<char>, Seq<char>)) -> Seq<char> {
    "{\"expr\":"@ + quoted_spec(t.0) + ",\"legendFormat\":"@ + quoted_spec(t.1) + ",\"refId\":"@ + quoted_spec(t.2) + "}"@
}

/// The grid position of a panel.
pub open spec fn grid_text(p: PanelPlan) -> Seq<char> {
    "\"gridPos\":{\"h\":"@ + decimal_spec(p.h as nat) + ",\"w\":"@ + decimal_spec(p.w as nat) + ",\"x\":"@
        + decimal_spec(p.x as nat) + ",\"y\":"@ + decimal_spec(p.y as nat) + "}"@
}

/// Whether a panel style is drawn as a line graph.
pub open spec fn is_graph(s: PanelStyle) -> bool {
    s == PanelStyle::RateGraph || s == PanelStyle::QuantileGraph
}

/// The field configuration of a metric panel: line drawing for graphs;
/// green, yellow (1000) and red (10000) thresholds for totals; green alone
/// for gauges; each with the panel's unit.
pub open spec fn field_config_text(s: PanelStyle, unit: Seq<char>) -> Seq<char> {
    (if is_graph(s) {
        "{\"defaults\":{\"custom\":{\"drawStyle\":\"line\",\"fillOpacity\":10,\"lineInterpolation\":\"linear\",\"lineWidth\":1,\"spanNulls\":true},\"unit\":"@
    } else if s == PanelStyle::TotalStat {
        "{\"defaults\":{\"thresholds\":{\"mode\":\"absolute\",\"steps\":[{\"color\":\"green\",\"value\":null},{\"color\":\"yellow\",\"value\":1000},{\"color\":\"red\",\"value\":10000}]},\"unit\":"@
    } else {
        "{\"defaults\":{\"thresholds\":{\"mode\":\"absolute\",\"steps\":[{\"color\":\"green\",\"value\":null}]},\"unit\":"@
    }) + quoted_spec(unit) + "}}"@
}

/// The display options of a metric panel: a table legend with mean and
/// last value for graphs, background-coloured stats otherwise.
pub open spec fn options_text(s: PanelStyle) -> Seq<char> {
    if is_graph(s) {
        "{\"legend\":{\"calcs\":[\"mean\",\"lastNotNull\"],\"displayMode\":\"table\",\"placement\":\"bottom\"}}"@
    } else {
        "{\"colorMode\":\"background\",\"graphMode\":\"area\",\"justifyMode\":\"auto\",\"orientation\":\"auto\",\"textMode\":\"auto\"}"@
    }
}

/// The panel type: `graph` or `stat`.
pub open spec fn type_text(s: PanelStyle) -> Seq<char> {
    if is_graph(s) { "\"graph\""@ } else { "\"stat\""@ }
}

/// The JSON of one panel: a collapsed-false row, or a metric panel reading
/// from `datasource`.
#[verifier::opaque]
pub open spec fn panel_text(p: PanelPlan, datasource: Seq<char>) -> Seq<char> {
    match p.content {
        PanelContent::Row { title } => "{\"collapsed\":false,"@ + grid_text(p) + ",\"id\":"@ + decimal_spec(p.id as nat)
            + ",\"title\":"@ + quoted_spec(title@) + ",\"type\":\"row\"}"@,
        PanelContent::Metric(mp) => {
            let v = metric_panel_view(mp);
            "{\"datasource\":"@ + quoted_spec(datasource) + ",\"fieldConfig\":"@ + field_config_text(v.0, v.2) + ","@
                + grid_text(p) + ",\"id\":"@ + decimal_spec(p.id as nat) + ",\"options\":"@ + options_text(v.0)
                + ",\"targets\":["@ + comma_joined(v.3.map_values(|t: (Seq<char>, Seq<char>, Seq<char>)| target_text(t)))
                + "],\"title\":"@ + quoted_spec(v.1) + ",\"type\":"@ + type_text(v.0) + "}"@
        },
    }
}

/// The panels of a dashboard, comma-separated.
pub open spec fn panels_text(d: DashboardPlan) -> Seq<char> {
    comma_joined(d.panels@.map_values(|p: PanelPlan| panel_text(p, d.datasource@)))
}

/// What comes before a dashboard's panels.
pub open spec fn dashboard_head() -> Seq<char> {
    "{\"annotations\":{\"list\":[{\"builtIn\":1,\"datasource\":\"-- Grafana --\",\"enable\":true,\"hide\":true,\"iconColor\":\"rgba(0, 211, 255, 1)\",\"name\":\"Annotations & Alerts\",\"type\":\"dashboard\"}]},\"id\":null,\"panels\":["@
}

/// What comes between a dashboard's panels and its title.
pub open spec fn dashboard_middle() -> Seq<char> {
    "],\"refresh\":\"10s\",\"schemaVersion\":27,\"tags\":[\"sms-scraper\",\"generated\"],\"templating\":{\"list\":[]},\"time\":{\"from\":\"now-1h\",\"to\":\"now\"},\"timepicker\":{\"refresh_intervals\":[\"5s\",\"10s\",\"30s\",\"1m\",\"5m\",\"15m\",\"30m\",\"1h\",\"2h\",\"1d\"]},\"timezone\":\"browser\",\"title\":"@
}

/// The JSON of a dashboard itself: Grafana's built-in annotations, its
/// panels, a 10 s refresh over the last hour, and its title.
pub open spec fn dashboard_object_text(d: DashboardPlan) -> Seq<char> {
    dashboard_head() + panels_text(d) + dashboard_middle() + quoted_spec(d.title@) + ",\"uid\":null,\"version\":0}"@
}

/// The JSON of a dashboard, inside `{"dashboard":..,"overwrite":true}` when
/// `wrapped`.
pub open spec fn dashboard_text(d: DashboardPlan, wrapped: bool) -> Seq<char> {
    if wrapped {
        "{\"dashboard\":"@ + dashboard_object_text(d) + ",\"overwrite\":true}"@
    } else {
        dashboard_object_text(d)
    }
}

proof fn lemma_comma_joined_push(parts: Seq<Seq<char>>, x: Seq<char>)
    ensures
        comma_joined(parts.push(x)) == if parts.len() == 0 { x } else { comma_joined(parts) + ","@ + x },
{
    assert(parts.push(x).drop_last() =~= parts);
}

fn write_grid(out: &mut String, p: &PanelPlan)
    ensures
        final(out)@ == old(out)@ + grid_text(*p),
{
    out.append("\"gridPos\":{\"h\":");
    out.append(u64_text(p.h).as_str());
    out.append(",\"w\":");
    out.append(u64_text(p.w).as_str());
    out.append(",\"x\":");
    out.append(u64_text(p.x).as_str());
    out.append(",\"y\":");
    out.append(u64_text(p.y).as_str());
    out.append("}");
}

fn write_target(out: &mut String, t: &PanelTarget)
    ensures
        final(out)@ == old(out)@ + target_text((t.expr@, t.legend_format@, t.ref_id@)),
{
    out.append("{\"expr\":");
    write_quoted(out, t.expr.as_str());
    out.append(",\"legendFormat\":");
    write_quoted(out, t.legend_format.as_str());
    out.append(",\"refId\":");
    write_quoted(out, t.ref_id.as_str());
    out.append("}");
}

fn is_graph_style(s: PanelStyle) -> (r: bool)
    ensures
        r == is_graph(s),
{
    match s {
        PanelStyle::RateGraph => true,
        PanelStyle::QuantileGraph => true,
        _ => false,
    }
}

fn write_field_config(out: &mut String, style: PanelStyle, unit: &str)
    ensures
        final(out)@ == old(out)@ + field_config_text(style, unit@),
{
    if is_graph_style(style) {
        out.append("{\"defaults\":{\"custom\":{\"drawStyle\":\"line\",\"fillOpacity\":10,\"lineInterpolation\":\"linear\",\"lineWidth\":1,\"spanNulls\":true},\"unit\":");
    } else if style == PanelStyle::TotalStat {
        out.append("{\"defaults\":{\"thresholds\":{\"mode\":\"absolute\",\"steps\":[{\"color\":\"green\",\"value\":null},{\"color\":\"yellow\",\"value\":1000},{\"color\":\"red\",\"value\":10000}]},\"unit\":");
    } else {
        out.append("{\"defaults\":{\"thresholds\":{\"mode\":\"absolute\",\"steps\":[{\"color\":\"green\",\"value\":null}]},\"unit\":");
    }
    write_quoted(out, unit);
    out.append("}}");
}

fn write_options(out: &mut String, style: PanelStyle)
    ensures
        final(out)@ == old(out)@ + options_text(style),
{
    if is_graph_style(style) {
        out.append("{\"legend\":{\"calcs\":[\"mean\",\"lastNotNull\"],\"displayMode\":\"table\",\"placement\":\"bottom\"}}");
    } else {
        out.append("{\"colorMode\":\"background\",\"graphMode\":\"area\",\"justifyMode\":\"auto\",\"orientation\":\"auto\",\"textMode\":\"auto\"}");
    }
}

fn write_targets(out: &mut String, mp: &MetricPanel)
    ensures
        final(out)@ == old(out)@ + comma_joined(metric_panel_view(*mp).3.map_values(|t: (Seq<char>, Seq<char>, Seq<char>)| target_text(t))),
{
    let ghost v = metric_panel_view(*mp);
    let ghost head = out@;
    let ghost texts = v.3.map_values(|t: (Seq<char>, Seq<char>, Seq<char>)| target_text(t));
    let mut i: usize = 0;
    while i < mp.targets.len()
        invariant
            i <= mp.targets@.len(),
            v == metric_panel_view(*mp),
            texts == v.3.map_values(|t: (Seq<char>, Seq<char>, Seq<char>)| target_text(t)),
            texts.len() == mp.targets@.len(),
            out@ == head + comma_joined(texts.subrange(0, i as int)),
        decreases mp.targets@.len() - i,
    {
        let ghost prefix = texts.subrange(0, i as int);
        if i > 0 {
            out.append(",");
        }
        write_target(out, &mp.targets[i]);
        proof {
            assert(texts[i as int] == target_text((mp.targets@[i as int].expr@, mp.targets@[i as int].legend_format@, mp.targets@[i as int].ref_id@)));
            assert(texts.subrange(0, i + 1) =~= prefix.push(texts[i as int]));
            lemma_comma_joined_push(prefix, texts[i as int]);
        }
        i = i + 1;
    }
    assert(texts.subrange(0, mp.targets@.len() as int) =~= texts);
}

#[verifier::rlimit(40)]
fn write_metric_panel(out: &mut String, p: &PanelPlan, mp: &MetricPanel, datasource: &str)
    requires
        p.content == PanelContent::Metric(*mp),
    ensures
        final(out)@ == old(out)@ + panel_text(*p, datasource@),
{
    let ghost v = metric_panel_view(*mp);
    let ghost before = out@;
    reveal(panel_text);
    out.append("{\"datasource\":");
    write_quoted(out, datasource);
    out.append(",\"fieldConfig\":");
    write_field_config(out, mp.style, mp.unit.as_str());
    out.append(",");
    write_grid(out, p);
    out.append(",\"id\":");
    out.append(u64_text(p.id).as_str());
    out.append(",\"options\":");
    write_options(out, mp.style);
    out.append(",\"targets\":[");
    write_targets(out, mp);
    out.append("],\"title\":");
    write_quoted(out, mp.title.as_str());
    out.append(",\"type\":");
    out.append(if is_graph_style(mp.style) { "\"graph\"" } else { "\"stat\"" });
    out.append("}");
    assert(out@ =~= before + panel_text(*p, datasource@));
}

fn write_panel(out: &mut String, p: &PanelPlan, datasource: &str)
    ensures
        final(out)@ == old(out)@ + panel_text(*p, datasource@),
{
    match &p.content {
        PanelContent::Row { title } => {
            let ghost before = out@;
            reveal(panel_text);
            assert(panel_text(*p, datasource@) == "{\"collapsed\":false,"@ + grid_text(*p) + ",\"id\":"@ + decimal_spec(p.id as nat)
                + ",\"title\":"@ + quoted_spec(title@) + ",\"type\":\"row\"}"@);
            out.append("{\"collapsed\":false,");
            write_grid(out, p);
            out.append(",\"id\":");
            out.append(u64_text(p.id).as_str());
            out.append(",\"title\":");
            write_quoted(out, title.as_str());
            out.append(",\"type\":\"row\"}");
            assert(out@ =~= before + panel_text(*p, datasource@));
        },
        PanelContent::Metric(mp) => write_metric_panel(out, p, mp, datasource),
    }
}

impl DashboardPlan {
    #[verifier::rlimit(40)]
    fn write_panels(&self, out: &mut String)
        ensures
            final(out)@ == old(out)@ + panels_text(*self),
    {
        let ghost head = out@;
        let ghost texts = self.panels@.map_values(|p: PanelPlan| panel_text(p, self.datasource@));
        let mut i: usize = 0;
        while i < self.panels.len()
            invariant
                i <= self.panels@.len(),
                texts == self.panels@.map_values(|p: PanelPlan| panel_text(p, self.datasource@)),
                out@ == head + comma_joined(texts.subrange(0, i as int)),
            decreases self.panels@.len() - i,
        {
            let ghost prefix = texts.subrange(0, i as int);
            if i > 0 {
                out.append(",");
            }
            write_panel(out, &self.panels[i], self.datasource.as_str());
            proof {
                assert(texts.subrange(0, i + 1) =~= prefix.push(texts[i as int]));
                lemma_comma_joined_push(prefix, texts[i as int]);
            }
            i = i + 1;
        }
        assert(texts.subrange(0, self.panels@.len() as int) =~= texts);
    }

    fn write_object(&self, out: &mut String)
        ensures
            final(out)@ == old(out)@ + dashboard_object_text(*self),
    {
        let ghost before = out@;
        out.append("{\"annotations\":{\"list\":[{\"builtIn\":1,\"datasource\":\"-- Grafana --\",\"enable\":true,\"hide\":true,\"iconColor\":\"rgba(0, 211, 255, 1)\",\"name\":\"Annotations & Alerts\",\"type\":\"dashboard\"}]},\"id\":null,\"panels\":[");
        self.write_panels(out);
        out.append("],\"refresh\":\"10s\",\"schemaVersion\":27,\"tags\":[\"sms-scraper\",\"generated\"],\"templating\":{\"list\":[]},\"time\":{\"from\":\"now-1h\",\"to\":\"now\"},\"timepicker\":{\"refresh_intervals\":[\"5s\",\"10s\",\"30s\",\"1m\",\"5m\",\"15m\",\"30m\",\"1h\",\"2h\",\"1d\"]},\"timezone\":\"browser\",\"title\":");
        write_quoted(out, self.title.as_str());
        out.append(",\"uid\":null,\"version\":0}");
        assert(out@ =~= before + dashboard_object_text(*self));
    }

    /// The dashboard's Grafana JSON; inside `{"dashboard":..,"overwrite":true}`
    /// when `wrapped`, as the Grafana API takes it.
    pub fn to_grafana_json(&self, wrapped: bool) -> (r: String)
        ensures
            r@ == dashboard_text(*self, wrapped),
    {
        let mut out = String::new();
        if wrapped {
            out.append("{\"dashboard\":");
        }
        self.write_object(&mut out);
        if wrapped {
            out.append(",\"overwrite\":true}");
        }
        assert(out@ =~= dashboard_text(*self, wrapped));
        out
    }
}

} // verus!
