//! Registration of all phase metrics, with detection of name conflicts.

use super::{
    phase_metric_name, MetricType, GatewayMetrics, IngestLogMetrics, MetricDoc, MetricDocView, MetricRegistration, ParserMetrics,
    PhaseMetrics, SourcesMetrics,
};
use vstd::prelude::*;
use vstd::string::*;

verus! {

/// Whether some entry of `docs` is named `name`.
pub open spec fn has_name(docs: Seq<MetricDocView>, name: Seq<char>) -> bool {
    exists|i: int| 0 <= i < docs.len() && #[trigger] docs[i].name == name
}

/// Adds `doc` unless an entry with its name is already present.
pub open spec fn insert_if_new(docs: Seq<MetricDocView>, doc: MetricDocView) -> Seq<MetricDocView> {
    if has_name(docs, doc.name) {
        docs
    } else {
        docs.push(doc)
    }
}

/// Registers `new` in order, keeping the first entry of every name.
pub open spec fn insert_all(docs: Seq<MetricDocView>, new: Seq<MetricDocView>) -> Seq<MetricDocView>
    decreases new.len(),
{
    if new.len() == 0 {
        docs
    } else {
        insert_all(insert_if_new(docs, new[0]), new.drop_first())
    }
}

/// No two entries share a name.
pub open spec fn names_distinct(docs: Seq<MetricDocView>) -> bool {
    forall|i: int, j: int| 0 <= i < j < docs.len() ==> docs[i].name != docs[j].name
}

/// All registered metrics, one entry per distinct name.
pub struct MetricsRegistry {
    docs: Vec<MetricDoc>,
}

impl View for MetricsRegistry {
    type V = Seq<MetricDocView>;

    closed spec fn view(&self) -> Seq<MetricDocView> {
        self.docs@.map_values(|d: MetricDoc| d@)
    }
}

impl MetricsRegistry {
    /// The registry keeps one entry per name.
    pub open spec fn wf(&self) -> bool {
        names_distinct(self@)
    }

    /// An empty registry.
    pub fn new() -> (r: Self)
        ensures
            r.wf(),
            r@.len() == 0,
    {
        let r = MetricsRegistry { docs: Vec::new() };
        assert(r@ =~= Seq::<MetricDocView>::empty());
        r
    }

    /// The number of registered metrics.
    pub fn len(&self) -> (n: usize)
        ensures
            n == self@.len(),
    {
        self.docs.len()
    }

    /// The registered documentation, in registration order.
    pub fn docs(&self) -> (r: &Vec<MetricDoc>)
        ensures
            r@.map_values(|d: MetricDoc| d@) == self@,
    {
        &self.docs
    }

    /// Whether a metric named `name` is registered.
    pub fn contains(&self, name: &String) -> (b: bool)
        ensures
            b == has_name(self@, name@),
    {
        let mut i: usize = 0;
        while i < self.docs.len()
            invariant
                i <= self.docs@.len(),
                forall|k: int| 0 <= k < i ==> self@[k].name != name@,
            decreases self.docs@.len() - i,
        {
            if self.docs[i].name == *name {
                assert(self@[i as int].name == name@);
                return true;
            }
            i = i + 1;
        }
        proof {
            if has_name(self@, name@) {
                let k = choose|k: int| 0 <= k < self@.len() && #[trigger] self@[k].name == name@;
                assert(self@[k].name != name@);
            }
        }
        false
    }

    /// Registers `doc` unless its name is taken; returns whether it was added.
    pub fn insert(&mut self, doc: MetricDoc) -> (added: bool)
        requires
            old(self).wf(),
        ensures
            final(self).wf(),
            final(self)@ == insert_if_new(old(self)@, doc@),
            added == !has_name(old(self)@, doc@.name),
    {
        if self.contains(&doc.name) {
            false
        } else {
            let ghost d = doc@;
            self.docs.push(doc);
            assert(self@ =~= old(self)@.push(d));
            true
        }
    }

    /// Registers every entry of `docs` in order; returns the names that were
    /// already taken (the conflicts).
    pub fn insert_all(&mut self, docs: Vec<MetricDoc>) -> (conflicts: Vec<String>)
        requires
            old(self).wf(),
        ensures
            final(self).wf(),
            final(self)@ == insert_all(old(self)@, docs@.map_values(|d: MetricDoc| d@)),
    {
        let ghost all = docs@.map_values(|d: MetricDoc| d@);
        let mut conflicts: Vec<String> = Vec::new();
        let mut docs = docs;
        let mut rest: Vec<MetricDoc> = Vec::new();
        // Reverse so that `pop` yields the entries in their given order.
        while docs.len() > 0
            invariant
                rest@.map_values(|d: MetricDoc| d@) + docs@.map_values(|d: MetricDoc| d@).reverse() == all.reverse(),
            decreases docs@.len(),
        {
            let ghost before = docs@;
            let d = docs.pop().unwrap();
            proof {
                let a = before.map_values(|x: MetricDoc| x@);
                let b = docs@.map_values(|x: MetricDoc| x@);
                assert(a =~= b.push(d@));
                assert(a.reverse() =~= seq![d@] + b.reverse());
            }
            rest.push(d);
            assert(rest@.map_values(|x: MetricDoc| x@) + docs@.map_values(|x: MetricDoc| x@).reverse()
                =~= all.reverse());
        }
        proof {
            assert(docs@.map_values(|x: MetricDoc| x@).reverse() =~= Seq::<MetricDocView>::empty());
            assert(rest@.map_values(|x: MetricDoc| x@) =~= all.reverse());
            assert(all.reverse().reverse() =~= all);
        }
        let ghost start = self@;
        while rest.len() > 0
            invariant
                self.wf(),
                insert_all(self@, rest@.map_values(|d: MetricDoc| d@).reverse()) == insert_all(start, all),
            decreases rest@.len(),
        {
            let ghost before = rest@;
            let ghost s0 = self@;
            let d = rest.pop().unwrap();
            proof {
                let a = before.map_values(|x: MetricDoc| x@);
                let b = rest@.map_values(|x: MetricDoc| x@);
                assert(a =~= b.push(d@));
                assert(a.reverse() =~= seq![d@] + b.reverse());
                assert((seq![d@] + b.reverse())[0] == d@);
                assert((seq![d@] + b.reverse()).drop_first() =~= b.reverse());
            }
            let name = d.name.clone();
            if !self.insert(d) {
                conflicts.push(name);
            }
        }
        assert(rest@.map_values(|x: MetricDoc| x@).reverse() =~= Seq::<MetricDocView>::empty());
        conflicts
    }
}

/// Registers the metrics of phase `T`; returns the registrations to apply to
/// the recorder and the names that conflicted with earlier phases.
pub fn register_phase_metrics<T: PhaseMetrics>(all_metrics: &mut MetricsRegistry) -> (r: (Vec<MetricRegistration>, Vec<String>))
    requires
        old(all_metrics).wf(),
    ensures
        final(all_metrics).wf(),
        final(all_metrics)@ == insert_all(old(all_metrics)@, T::spec_documentation()),
{
    let registrations = T::register_metrics();
    let docs = T::metrics_documentation();
    let conflicts = all_metrics.insert_all(docs);
    (registrations, conflicts)
}

/// The result of registering every phase.
pub struct RegisteredMetrics {
    pub registry: MetricsRegistry,
    pub registrations: Vec<MetricRegistration>,
    pub conflicts: Vec<String>,
}

/// Appends `b` to `a`.
fn append_all<T>(a: &mut Vec<T>, b: Vec<T>)
    ensures
        final(a)@ == old(a)@ + b@,
{
    let mut b = b;
    a.append(&mut b);
}

/// Registers the metrics of all phases: sources, gateway, ingest log, parser.
pub fn register_all_metrics() -> (r: RegisteredMetrics)
    ensures
        r.registry.wf(),
        r.registry@ == insert_all(
            insert_all(
                insert_all(insert_all(Seq::empty(), SourcesMetrics::spec_documentation()), GatewayMetrics::spec_documentation()),
                IngestLogMetrics::spec_documentation(),
            ),
            ParserMetrics::spec_documentation(),
        ),
{
    let mut all = MetricsRegistry::new();
    assert(all@ =~= Seq::<MetricDocView>::empty());
    let (mut regs, mut conflicts) = register_phase_metrics::<SourcesMetrics>(&mut all);
    let (r2, c2) = register_phase_metrics::<GatewayMetrics>(&mut all);
    append_all(&mut regs, r2);
    append_all(&mut conflicts, c2);
    let (r3, c3) = register_phase_metrics::<IngestLogMetrics>(&mut all);
    append_all(&mut regs, r3);
    append_all(&mut conflicts, c3);
    let (r4, c4) = register_phase_metrics::<ParserMetrics>(&mut all);
    append_all(&mut regs, r4);
    append_all(&mut conflicts, c4);
    RegisteredMetrics { registry: all, registrations: regs, conflicts }
}


/// The index of the first `c` in `s` at or after `i`, or -1.
pub open spec fn first_index_from(s: Seq<char>, c: char, i: int) -> int
    decreases s.len() - i,
{
    if i < 0 || i >= s.len() {
        -1
    } else if s[i] == c {
        i
    } else {
        first_index_from(s, c, i + 1)
    }
}

/// Whether `s` begins with `p`.
pub open spec fn begins_with(s: Seq<char>, p: Seq<char>) -> bool {
    p.len() <= s.len() && s.subrange(0, p.len() as int) == p
}

/// The text between the `sms_` prefix and the next underscore, or `unknown`
/// when there is no such text.
pub open spec fn first_segment(name: Seq<char>) -> Seq<char> {
    if name.len() >= 4 && name.subrange(0, 4) == "sms_"@ && first_index_from(name, '_', 4) >= 0 {
        name.subrange(4, first_index_from(name, '_', 4))
    } else {
        "unknown"@
    }
}

/// The phase of a metric name: the declared phases whose names hold an
/// underscore (`ingest_log`, `quality_gate`) when the name starts with
/// `sms_` and one of them and an underscore; else the text between `sms_`
/// and the next underscore; `unknown` when there is no such text.
pub open spec fn metric_phase(name: Seq<char>) -> Seq<char> {
    if begins_with(name, "sms_ingest_log_"@) {
        "ingest_log"@
    } else if begins_with(name, "sms_quality_gate_"@) {
        "quality_gate"@
    } else {
        first_segment(name)
    }
}

/// Whether `s` begins with `p`.
fn has_prefix(s: &str, p: &str) -> (r: bool)
    ensures
        r == begins_with(s@, p@),
{
    let n = s.unicode_len();
    let m = p.unicode_len();
    if m > n {
        return false;
    }
    let mut k: usize = 0;
    while k < m
        invariant
            n == s@.len(),
            m == p@.len(),
            m <= n,
            k <= m,
            forall|j: int| 0 <= j < k ==> s@[j] == p@[j],
        decreases m - k,
    {
        if s.get_char(k) != p.get_char(k) {
            assert(s@.subrange(0, m as int)[k as int] != p@[k as int]);
            return false;
        }
        k = k + 1;
    }
    assert(s@.subrange(0, m as int) =~= p@);
    true
}

/// Extracts the phase from a metric name, e.g. `sms_gateway_envelopes_total`
/// gives `gateway` and `sms_ingest_log_writes_success_total` gives
/// `ingest_log`.
pub fn extract_phase_from_metric_name(metric_name: &str) -> (r: &str)
    ensures
        r@ == metric_phase(metric_name@),
{
    if has_prefix(metric_name, "sms_ingest_log_") {
        return "ingest_log";
    }
    if has_prefix(metric_name, "sms_quality_gate_") {
        return "quality_gate";
    }
    first_segment_of(metric_name)
}

fn first_segment_of(metric_name: &str) -> (r: &str)
    ensures
        r@ == first_segment(metric_name@),
{
    let prefix = "sms_";
    proof {
        reveal_strlit("sms_");
    }
    let n = metric_name.unicode_len();
    if n < 4 {
        return "unknown";
    }
    let mut k: usize = 0;
    while k < 4
        invariant
            n == metric_name@.len(),
            n >= 4,
            k <= 4,
            prefix@ == "sms_"@,
            prefix@.len() == 4,
            forall|j: int| 0 <= j < k ==> metric_name@[j] == prefix@[j],
        decreases 4 - k,
    {
        if metric_name.get_char(k) != prefix.get_char(k) {
            assert(metric_name@.subrange(0, 4)[k as int] != "sms_"@[k as int]);
            return "unknown";
        }
        k = k + 1;
    }
    assert(metric_name@.subrange(0, 4) =~= "sms_"@);
    let mut i: usize = 4;
    while i < n
        invariant
            n == metric_name@.len(),
            4 <= i <= n,
            metric_name@.subrange(0, 4) == "sms_"@,
            forall|j: int| 4 <= j < i ==> metric_name@[j] != '_',
            first_index_from(metric_name@, '_', 4) == first_index_from(metric_name@, '_', i as int),
        decreases n - i,
    {
        if metric_name.get_char(i) == '_' {
            assert(first_index_from(metric_name@, '_', i as int) == i as int);
            return metric_name.substring_char(4, i);
        }
        assert(first_index_from(metric_name@, '_', i as int) == first_index_from(metric_name@, '_', i + 1));
        i = i + 1;
    }
    assert(first_index_from(metric_name@, '_', n as int) == -1);
    "unknown"
}

/// Scanning from `i` finds the first underscore after a run without one.
proof fn lemma_first_index_skips(s: Seq<char>, i: int, stop: int)
    requires
        0 <= i <= stop < s.len(),
        s[stop] == '_',
        forall|j: int| i <= j < stop ==> s[j] != '_',
    ensures
        first_index_from(s, '_', i) == stop,
    decreases stop - i,
{
    if i < stop {
        lemma_first_index_skips(s, i + 1, stop);
    }
}

/// The phase of a conventional metric name is the phase it was built from:
/// for a phase name without an underscore (other than `ingest` and
/// `quality`, the first words of the two-word phases), and for `ingest_log`
/// and `quality_gate`.
pub proof fn lemma_metric_phase_of_phase_metric(kind: MetricType, phase: Seq<char>, name: Seq<char>)
    requires
        (forall|j: int| 0 <= j < phase.len() ==> phase[j] != '_') && phase != "ingest"@ && phase != "quality"@
            || phase == "ingest_log"@ || phase == "quality_gate"@,
    ensures
        metric_phase(phase_metric_name(kind, phase, name)) == phase,
{
    reveal_strlit("sms_");
    reveal_strlit("_");
    reveal_strlit("_total");
    reveal_strlit("sms_ingest_log_");
    reveal_strlit("sms_quality_gate_");
    reveal_strlit("ingest_log");
    reveal_strlit("quality_gate");
    reveal_strlit("ingest");
    reveal_strlit("quality");
    let s = phase_metric_name(kind, phase, name);
    assert(s.subrange(0, 4) =~= "sms_"@);
    if phase == "ingest_log"@ {
        assert(s.subrange(0, 15) =~= "sms_ingest_log_"@);
    } else if phase == "quality_gate"@ {
        assert(!begins_with(s, "sms_ingest_log_"@)) by {
            assert(s[4] == 'q');
            assert("sms_ingest_log_"@[4] == 'i');
            if begins_with(s, "sms_ingest_log_"@) {
                assert(s.subrange(0, 15)[4] == s[4]);
            }
        }
        assert(s.subrange(0, 17) =~= "sms_quality_gate_"@);
    } else {
        let stop: int = 4 + phase.len() as int;
        assert(s[stop] == '_');
        assert forall|j: int| 4 <= j < stop implies s[j] != '_' by {
            assert(s[j] == phase[j - 4]);
        }
        lemma_first_index_skips(s, 4, stop);
        assert(s.subrange(4, stop) =~= phase);
        assert(!begins_with(s, "sms_ingest_log_"@)) by {
            if begins_with(s, "sms_ingest_log_"@) {
                let pre = "sms_ingest_log_"@;
                assert(s.subrange(0, 15) == pre);
                assert(pre[10] == '_');
                assert(s[10] == '_');
                assert forall|j: int| 4 <= j < 10 implies s[j] == pre[j] by {
                    assert(s.subrange(0, 15)[j] == s[j]);
                }
                if stop > 10 {
                    assert(s[10] != '_');
                } else if stop < 10 {
                    assert(s[stop] == pre[stop]);
                    assert(pre[stop] != '_');
                } else {
                    assert(phase =~= "ingest"@) by {
                        assert forall|j: int| 0 <= j < phase.len() implies phase[j] == "ingest"@[j] by {
                            assert(s[j + 4] == phase[j]);
                            assert(s.subrange(0, 15)[j + 4] == s[j + 4]);
                        }
                    }
                }
            }
        }
        assert(!begins_with(s, "sms_quality_gate_"@)) by {
            if begins_with(s, "sms_quality_gate_"@) {
                let pre = "sms_quality_gate_"@;
                assert(s.subrange(0, 17) == pre);
                assert(pre[11] == '_');
                assert forall|j: int| 4 <= j < 12 implies s[j] == pre[j] by {
                    assert(s.subrange(0, 17)[j] == s[j]);
                }
                if stop > 11 {
                    assert(s[11] != '_');
                } else if stop < 11 {
                    assert(s[stop] == pre[stop]);
                    assert(pre[stop] != '_');
                } else {
                    assert(phase =~= "quality"@) by {
                        assert forall|j: int| 0 <= j < phase.len() implies phase[j] == "quality"@[j] by {
                            assert(s[j + 4] == phase[j]);
                        }
                    }
                }
            }
        }
    }
}

/// Registering keeps every earlier entry in place.
pub proof fn lemma_insert_all_keeps_prefix(docs: Seq<MetricDocView>, new: Seq<MetricDocView>)
    ensures
        insert_all(docs, new).len() >= docs.len(),
        insert_all(docs, new).subrange(0, docs.len() as int) == docs,
    decreases new.len(),
{
    if new.len() > 0 {
        let d1 = insert_if_new(docs, new[0]);
        lemma_insert_all_keeps_prefix(d1, new.drop_first());
        assert(d1.subrange(0, docs.len() as int) =~= docs);
        assert(insert_all(docs, new).subrange(0, docs.len() as int) =~= insert_all(d1, new.drop_first()).subrange(0, d1.len() as int).subrange(0, docs.len() as int));
    } else {
        assert(docs.subrange(0, docs.len() as int) =~= docs);
    }
}

/// After registering, every name that was present or offered is present.
pub proof fn lemma_insert_all_covers(docs: Seq<MetricDocView>, new: Seq<MetricDocView>)
    ensures
        forall|i: int| 0 <= i < docs.len() ==> has_name(insert_all(docs, new), #[trigger] docs[i].name),
        forall|i: int| 0 <= i < new.len() ==> has_name(insert_all(docs, new), #[trigger] new[i].name),
    decreases new.len(),
{
    lemma_insert_all_keeps_prefix(docs, new);
    let r = insert_all(docs, new);
    assert forall|i: int| 0 <= i < docs.len() implies has_name(r, #[trigger] docs[i].name) by {
        assert(r.subrange(0, docs.len() as int)[i] == docs[i]);
        assert(r[i].name == docs[i].name);
    }
    if new.len() > 0 {
        let d1 = insert_if_new(docs, new[0]);
        lemma_insert_all_covers(d1, new.drop_first());
        assert(has_name(d1, new[0].name)) by {
            if !has_name(docs, new[0].name) {
                assert(d1[docs.len() as int].name == new[0].name);
            }
        }
        assert forall|i: int| 0 <= i < new.len() implies has_name(r, #[trigger] new[i].name) by {
            if i == 0 {
                let k = choose|k: int| 0 <= k < d1.len() && #[trigger] d1[k].name == new[0].name;
                assert(has_name(r, d1[k].name));
            } else {
                assert(new.drop_first()[i - 1] == new[i]);
            }
        }
    }
}

/// Registering never introduces two entries with one name.
pub proof fn lemma_insert_all_distinct(docs: Seq<MetricDocView>, new: Seq<MetricDocView>)
    requires
        names_distinct(docs),
    ensures
        names_distinct(insert_all(docs, new)),
    decreases new.len(),
{
    if new.len() > 0 {
        let d1 = insert_if_new(docs, new[0]);
        assert(names_distinct(d1)) by {
            if !has_name(docs, new[0].name) {
                assert forall|i: int, j: int| 0 <= i < j < d1.len() implies d1[i].name != d1[j].name by {
                    if j == docs.len() {
                        assert(d1[i] == docs[i]);
                    }
                }
            }
        }
        lemma_insert_all_distinct(d1, new.drop_first());
    }
}

} // verus!
