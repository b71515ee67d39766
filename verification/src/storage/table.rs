//! A table of rows keyed by their 128-bit id: a map from id to row, kept as
//! a vector of rows whose ids are all present and distinct.

use vstd::prelude::*;

verus! {

/// What a table needs of its rows: the id a row carries and an exact copy.
pub trait Row: View + Sized {
    /// The id held in a row's view.
    spec fn id_of(v: Self::V) -> Option<u128>;

    /// The row's id.
    fn row_id(&self) -> (r: Option<u128>)
        ensures
            r == Self::id_of(self@),
    ;

    /// A copy of the row.
    fn duplicate(&self) -> (r: Self)
        ensures
            r@ == self@,
    ;
}

/// The views of a vector of rows.
pub open spec fn row_views<T: Row>(rows: Seq<T>) -> Seq<T::V> {
    rows.map_values(|r: T| r@)
}

/// The map a sequence of rows stands for: each row under its id, later rows
/// overriding earlier ones.
pub open spec fn rows_map<T: Row>(rows: Seq<T::V>) -> Map<u128, T::V>
    decreases rows.len(),
{
    if rows.len() == 0 {
        Map::empty()
    } else {
        let prev = rows_map::<T>(rows.drop_last());
        match T::id_of(rows.last()) {
            Some(k) => prev.insert(k, rows.last()),
            None => prev,
        }
    }
}

/// Every row has an id and no two rows share one.
pub open spec fn ids_distinct<T: Row>(rows: Seq<T::V>) -> bool {
    &&& forall|i: int| 0 <= i < rows.len() ==> T::id_of(#[trigger] rows[i]) is Some
    &&& forall|i: int, j: int| 0 <= i < j < rows.len() ==> T::id_of(#[trigger] rows[i]) != T::id_of(#[trigger] rows[j])
}

/// With distinct ids, every row stands in the map under its own id.
pub proof fn lemma_rows_map_index<T: Row>(rows: Seq<T::V>, i: int)
    requires
        ids_distinct::<T>(rows),
        0 <= i < rows.len(),
    ensures
        rows_map::<T>(rows).contains_key(T::id_of(rows[i])->0),
        rows_map::<T>(rows)[T::id_of(rows[i])->0] == rows[i],
    decreases rows.len(),
{
    if i < rows.len() - 1 {
        let pre = rows.drop_last();
        assert(pre[i] == rows[i]);
        assert(ids_distinct::<T>(pre));
        lemma_rows_map_index::<T>(pre, i);
        assert(T::id_of(rows[i]) != T::id_of(rows[rows.len() - 1]));
    }
}

/// Every id of the map is the id of some row.
pub proof fn lemma_rows_map_dom<T: Row>(rows: Seq<T::V>, k: u128)
    requires
        rows_map::<T>(rows).contains_key(k),
    ensures
        exists|i: int| 0 <= i < rows.len() && T::id_of(#[trigger] rows[i]) == Some(k),
    decreases rows.len(),
{
    if rows.len() > 0 {
        let pre = rows.drop_last();
        if T::id_of(rows.last()) == Some(k) {
            assert(T::id_of(rows[rows.len() - 1]) == Some(k));
        } else {
            lemma_rows_map_dom::<T>(pre, k);
            let i = choose|i: int| 0 <= i < pre.len() && T::id_of(#[trigger] pre[i]) == Some(k);
            assert(rows[i] == pre[i]);
        }
    }
}

/// Replacing a row by one with the same id replaces it in the map.
pub proof fn lemma_rows_map_update<T: Row>(rows: Seq<T::V>, i: int, v: T::V)
    requires
        ids_distinct::<T>(rows),
        0 <= i < rows.len(),
        T::id_of(v) == T::id_of(rows[i]),
    ensures
        rows_map::<T>(rows.update(i, v)) == rows_map::<T>(rows).insert(T::id_of(v)->0, v),
        ids_distinct::<T>(rows.update(i, v)),
    decreases rows.len(),
{
    let k = T::id_of(v)->0;
    let up = rows.update(i, v);
    let pre = rows.drop_last();
    assert(ids_distinct::<T>(up)) by {
        assert forall|a: int, b: int| 0 <= a < b < up.len() implies T::id_of(#[trigger] up[a]) != T::id_of(#[trigger] up[b]) by {
            assert(T::id_of(rows[a]) != T::id_of(rows[b]));
        }
    }
    if i == rows.len() - 1 {
        assert(up.drop_last() =~= pre);
        assert(rows_map::<T>(up) =~= rows_map::<T>(rows).insert(k, v));
    } else {
        assert(up.drop_last() =~= pre.update(i, v));
        assert(ids_distinct::<T>(pre));
        lemma_rows_map_update::<T>(pre, i, v);
        let lk = T::id_of(rows.last())->0;
        assert(T::id_of(rows[i]) != T::id_of(rows[rows.len() - 1]));
        assert(up.last() == rows.last());
        assert(rows_map::<T>(up) =~= rows_map::<T>(rows).insert(k, v));
    }
}

/// With distinct ids, the rows are the map's values, each once.
pub proof fn lemma_rows_values<T: Row>(rows: Seq<T::V>)
    requires
        ids_distinct::<T>(rows),
    ensures
        rows.to_set() == rows_map::<T>(rows).values(),
        rows.no_duplicates(),
{
    let m = rows_map::<T>(rows);
    assert forall|v: T::V| rows.to_set().contains(v) implies m.values().contains(v) by {
        let i = choose|i: int| 0 <= i < rows.len() && rows[i] == v;
        lemma_rows_map_index::<T>(rows, i);
        assert(m.contains_key(T::id_of(rows[i])->0));
    }
    assert forall|v: T::V| m.values().contains(v) implies rows.to_set().contains(v) by {
        let k = choose|k: u128| m.contains_key(k) && m[k] == v;
        lemma_rows_map_dom::<T>(rows, k);
        let i = choose|i: int| 0 <= i < rows.len() && T::id_of(#[trigger] rows[i]) == Some(k);
        lemma_rows_map_index::<T>(rows, i);
        assert(rows.contains(v));
    }
    assert(rows.to_set() =~= m.values());
    assert forall|a: int, b: int| 0 <= a < rows.len() && 0 <= b < rows.len() && a != b implies rows[a] != rows[b] by {
        if a < b {
            assert(T::id_of(rows[a]) != T::id_of(rows[b]));
        } else {
            assert(T::id_of(rows[b]) != T::id_of(rows[a]));
        }
    }
}

/// Every row of the map carries the id it is stored under.
pub open spec fn ids_match<T: Row>(m: Map<u128, T::V>) -> bool {
    forall|k: u128| m.contains_key(k) ==> T::id_of(#[trigger] m[k]) == Some(k)
}

/// With distinct ids, every row stands under its own id.
pub proof fn lemma_rows_map_ids<T: Row>(rows: Seq<T::V>)
    requires
        ids_distinct::<T>(rows),
    ensures
        ids_match::<T>(rows_map::<T>(rows)),
{
    assert forall|k: u128| rows_map::<T>(rows).contains_key(k) implies T::id_of(#[trigger] rows_map::<T>(rows)[k]) == Some(k) by {
        lemma_rows_map_dom::<T>(rows, k);
        let i = choose|i: int| 0 <= i < rows.len() && T::id_of(#[trigger] rows[i]) == Some(k);
        lemma_rows_map_index::<T>(rows, i);
    }
}

/// Rows stored by id.
pub struct Table<T: Row> {
    rows: Vec<T>,
}

impl<T: Row> Table<T> {
    /// The views of the rows, in the order they were first stored.
    pub closed spec fn rows_view(&self) -> Seq<T::V> {
        row_views(self.rows@)
    }

    #[verifier::type_invariant]
    closed spec fn wf(&self) -> bool {
        ids_distinct::<T>(self.rows_view())
    }

    /// An empty table.
    pub fn new() -> (t: Self)
        ensures
            t@ == Map::<u128, T::V>::empty(),
            t.rows_view().len() == 0,
            ids_match::<T>(t@),
    {
        let t = Table { rows: Vec::new() };
        assert(t.rows_view() =~= Seq::<T::V>::empty());
        t
    }

    /// The rows, with the facts that tie them to the map.
    pub fn rows(&self) -> (r: &Vec<T>)
        ensures
            row_views(r@) == self.rows_view(),
            ids_distinct::<T>(self.rows_view()),
            rows_map::<T>(self.rows_view()) == self@,
            ids_match::<T>(self@),
    {
        proof {
            use_type_invariant(self);
            lemma_rows_map_ids::<T>(self.rows_view());
        }
        &self.rows
    }

    /// Stores `row` under its id, replacing the row stored there.
    pub fn put(&mut self, row: T)
        requires
            T::id_of(row@) is Some,
        ensures
            final(self)@ == old(self)@.insert(T::id_of(row@)->0, row@),
            ids_match::<T>(final(self)@),
    {
        proof {
            use_type_invariant(&*self);
            lemma_rows_map_ids::<T>(self.rows_view());
        }
        let k = row.row_id();
        let ghost before = self.rows_view();
        let ghost rv = row@;
        let mut i: usize = 0;
        while i < self.rows.len()
            invariant
                i <= self.rows@.len(),
                before == row_views(self.rows@),
                self.rows@ == old(self).rows@,
                before == old(self).rows_view(),
                ids_distinct::<T>(before),
                k == T::id_of(rv),
                rv == row@,
                ids_match::<T>(rows_map::<T>(before)),
                forall|j: int| 0 <= j < i ==> T::id_of(#[trigger] before[j]) != k,
            decreases self.rows@.len() - i,
        {
            assert(before[i as int] == self.rows@[i as int]@);
            if self.rows[i].row_id() == k {
                let ghost orig = self.rows@;
                let mut rows = Vec::new();
                std::mem::swap(&mut rows, &mut self.rows);
                assert(rows@ == orig);
                rows.set(i, row);
                proof {
                    lemma_rows_map_update::<T>(before, i as int, rv);
                    assert forall|j: int| 0 <= j < rows@.len() implies #[trigger] row_views(rows@)[j] == before.update(i as int, rv)[j] by {
                        assert(row_views(rows@)[j] == rows@[j]@);
                        if j != i {
                            assert(rows@[j] == orig[j]);
                            assert(before[j] == orig[j]@);
                        } else {
                            assert(rows@[j]@ == rv);
                        }
                    }
                    assert(row_views(rows@) =~= before.update(i as int, rv));
                }
                self.rows = rows;
                return;
            }
            i = i + 1;
        }
        let mut rows = Vec::new();
        std::mem::swap(&mut rows, &mut self.rows);
        rows.push(row);
        proof {
            assert(row_views(rows@) =~= before.push(rv));
            assert(before.push(rv).drop_last() =~= before);
            assert(ids_distinct::<T>(before.push(rv))) by {
                assert forall|a: int, b: int| 0 <= a < b < before.len() + 1 implies T::id_of(#[trigger] before.push(rv)[a])
                    != T::id_of(#[trigger] before.push(rv)[b]) by {
                    if b < before.len() {
                        assert(T::id_of(before[a]) != T::id_of(before[b]));
                    }
                }
            }
        }
        self.rows = rows;
    }

    /// A copy of the row stored under `k`.
    pub fn get(&self, k: u128) -> (r: Option<T>)
        ensures
            match r {
                Some(row) => self@.contains_key(k) && self@[k] == row@ && T::id_of(row@) == Some(k),
                None => !self@.contains_key(k),
            },
            ids_match::<T>(self@),
    {
        let rows = self.rows();
        let ghost rv = self.rows_view();
        let mut i: usize = 0;
        while i < rows.len()
            invariant
                i <= rows@.len(),
                row_views(rows@) == rv,
                ids_distinct::<T>(rv),
                rows_map::<T>(rv) == self@,
                ids_match::<T>(self@),
                forall|j: int| 0 <= j < i ==> T::id_of(#[trigger] rv[j]) != Some(k),
            decreases rows@.len() - i,
        {
            assert(rv[i as int] == rows@[i as int]@);
            if rows[i].row_id() == Some(k) {
                proof {
                    lemma_rows_map_index::<T>(rv, i as int);
                }
                return Some(rows[i].duplicate());
            }
            i = i + 1;
        }
        proof {
            if self@.contains_key(k) {
                lemma_rows_map_dom::<T>(rv, k);
            }
        }
        None
    }
}

impl<T: Row> View for Table<T> {
    type V = Map<u128, T::V>;

    closed spec fn view(&self) -> Map<u128, T::V> {
        rows_map::<T>(self.rows_view())
    }
}

/// Rows listed in a fixed order.
pub trait Listed: Row {
    /// Whether a row is listed strictly before another.
    spec fn precedes(a: Self::V, b: Self::V) -> bool;

    /// Whether this row is listed strictly before `other`.
    fn goes_before(&self, other: &Self) -> (r: bool)
        ensures
            r == Self::precedes(self@, other@),
    ;

    /// The order is strict: irreflexive and transitive.
    proof fn lemma_precedes(a: Self::V, b: Self::V, c: Self::V)
        ensures
            !Self::precedes(a, a),
            Self::precedes(a, b) && Self::precedes(b, c) ==> Self::precedes(a, c),
    ;
}

/// No row is listed after one that precedes it.
pub open spec fn in_order<T: Listed>(s: Seq<T::V>) -> bool {
    forall|i: int, j: int| 0 <= i < j < s.len() ==> !T::precedes(#[trigger] s[j], #[trigger] s[i])
}

/// The rows in order, rows that neither precedes keeping their relative
/// order.
pub fn sort_rows<T: Listed>(v: Vec<T>) -> (r: Vec<T>)
    ensures
        row_views(r@).to_multiset() == row_views(v@).to_multiset(),
        in_order::<T>(row_views(r@)),
{
    broadcast use vstd::seq_lib::group_to_multiset_ensures, vstd::multiset::group_multiset_axioms;
    let ghost total = row_views(v@).to_multiset();
    let mut input = v;
    let mut out: Vec<T> = Vec::new();
    assert(row_views(out@) =~= Seq::<T::V>::empty());
    assert(row_views(out@).to_multiset().add(row_views(input@).to_multiset()) =~= total);
    while input.len() > 0
        invariant
            row_views(out@).to_multiset().add(row_views(input@).to_multiset()) == total,
            in_order::<T>(row_views(out@)),
        decreases input@.len(),
    {
        let ghost before_in = row_views(input@);
        let x = input.remove(0);
        let ghost xv = x@;
        proof {
            assert(row_views(input@) =~= before_in.remove(0));
            vstd::seq_lib::to_multiset_remove(before_in, 0);
            assert(before_in[0] == xv);
        }
        let mut p: usize = 0;
        while p < out.len()
            invariant
                p <= out@.len(),
                xv == x@,
                forall|q: int| 0 <= q < p ==> !T::precedes(xv, #[trigger] row_views(out@)[q]),
            ensures
                p <= out@.len(),
                forall|q: int| 0 <= q < p ==> !T::precedes(xv, #[trigger] row_views(out@)[q]),
                p < out@.len() ==> T::precedes(xv, row_views(out@)[p as int]),
            decreases out@.len() - p,
        {
            assert(row_views(out@)[p as int] == out@[p as int]@);
            if x.goes_before(&out[p]) {
                assert(T::precedes(xv, row_views(out@)[p as int]));
                break;
            }
            p = p + 1;
        }
        let ghost old_out = row_views(out@);
        out.insert(p, x);
        proof {
            let nv = row_views(out@);
            assert(nv =~= old_out.insert(p as int, xv));
            vstd::seq_lib::to_multiset_insert(old_out, p as int, xv);
            assert forall|a: int, b: int| 0 <= a < b < nv.len() implies !T::precedes(#[trigger] nv[b], #[trigger] nv[a]) by {
                if b < p {
                    assert(nv[a] == old_out[a] && nv[b] == old_out[b]);
                } else if a > p {
                    assert(nv[a] == old_out[a - 1] && nv[b] == old_out[b - 1]);
                } else if b == p {
                    assert(nv[a] == old_out[a]);
                } else if a == p {
                    assert(nv[b] == old_out[b - 1]);
                    T::lemma_precedes(old_out[b - 1], xv, old_out[p as int]);
                    T::lemma_precedes(old_out[p as int], old_out[p as int], old_out[p as int]);
                } else {
                    assert(nv[a] == old_out[a] && nv[b] == old_out[b - 1]);
                }
            }
            assert(before_in.to_multiset().count(xv) > 0) by {
                assert(before_in.contains(xv)) by {
                    assert(before_in[0] == xv);
                }
                vstd::seq_lib::to_multiset_contains(before_in, xv);
            }
            assert(row_views(input@).to_multiset() == before_in.to_multiset().remove(xv));
            assert(nv.to_multiset() == old_out.to_multiset().insert(xv));
            assert(nv.to_multiset().add(row_views(input@).to_multiset()) =~= total);
        }
    }
    assert(row_views(input@) =~= Seq::<T::V>::empty());
    assert(row_views(out@).to_multiset() =~= total);
    out
}

/// The elements of `s` that satisfy `pred`, in order.
pub open spec fn kept<A>(s: Seq<A>, pred: spec_fn(A) -> bool) -> Seq<A>
    decreases s.len(),
{
    if s.len() == 0 {
        Seq::empty()
    } else {
        let k = kept(s.drop_last(), pred);
        if pred(s.last()) {
            k.push(s.last())
        } else {
            k
        }
    }
}

/// An element is kept exactly when it is in `s` and satisfies `pred`.
pub proof fn lemma_kept_contains<A>(s: Seq<A>, pred: spec_fn(A) -> bool, x: A)
    ensures
        kept(s, pred).contains(x) <==> (s.contains(x) && pred(x)),
    decreases s.len(),
{
    if s.len() > 0 {
        let pre = s.drop_last();
        lemma_kept_contains(pre, pred, x);
        let k = kept(pre, pred);
        if s.contains(x) && pred(x) {
            let i = choose|i: int| 0 <= i < s.len() && s[i] == x;
            if i < s.len() - 1 {
                assert(pre[i] == x);
            } else if pred(s.last()) {
                assert(k.push(s.last())[k.len() as int] == x);
            }
            if pred(s.last()) && i < s.len() - 1 {
                let j = choose|j: int| 0 <= j < k.len() && k[j] == x;
                assert(k.push(s.last())[j] == x);
            }
        }
        if kept(s, pred).contains(x) {
            let j = choose|j: int| 0 <= j < kept(s, pred).len() && kept(s, pred)[j] == x;
            if pred(s.last()) && j == k.len() {
                assert(s[s.len() - 1] == x);
            } else {
                assert(k[j] == x);
                let i = choose|i: int| 0 <= i < pre.len() && pre[i] == x;
                assert(s[i] == x);
            }
        }
    }
}

/// Keeping part of a sequence without duplicates gives one without
/// duplicates.
pub proof fn lemma_kept_no_duplicates<A>(s: Seq<A>, pred: spec_fn(A) -> bool)
    requires
        s.no_duplicates(),
    ensures
        kept(s, pred).no_duplicates(),
    decreases s.len(),
{
    if s.len() > 0 {
        let pre = s.drop_last();
        assert(pre.no_duplicates()) by {
            assert forall|i: int, j: int| 0 <= i < pre.len() && 0 <= j < pre.len() && i != j implies pre[i] != pre[j] by {
                assert(pre[i] == s[i] && pre[j] == s[j]);
            }
        }
        lemma_kept_no_duplicates(pre, pred);
        if pred(s.last()) {
            let k = kept(pre, pred);
            assert forall|i: int| 0 <= i < k.len() implies k[i] != s.last() by {
                lemma_kept_contains(pre, pred, k[i]);
                assert(k.contains(k[i]));
                let j = choose|j: int| 0 <= j < pre.len() && pre[j] == k[i];
                assert(s[j] == pre[j]);
            }
            let kk = k.push(s.last());
            assert forall|a: int, b: int| 0 <= a < kk.len() && 0 <= b < kk.len() && a != b implies kk[a] != kk[b] by {
                if a < k.len() && b < k.len() {
                    assert(kk[a] == k[a] && kk[b] == k[b]);
                } else if a < k.len() {
                    assert(kk[a] == k[a]);
                } else if b < k.len() {
                    assert(kk[b] == k[b]);
                }
            }
        }
    }
}

/// The rows that satisfy `pred` are the map's values that do, each once.
pub proof fn lemma_kept_values<T: Row>(rows: Seq<T::V>, pred: spec_fn(T::V) -> bool)
    requires
        ids_distinct::<T>(rows),
    ensures
        kept(rows, pred).to_set() == rows_map::<T>(rows).values().filter(pred),
        kept(rows, pred).no_duplicates(),
{
    lemma_rows_values::<T>(rows);
    lemma_kept_no_duplicates(rows, pred);
    assert forall|v: T::V| kept(rows, pred).to_set().contains(v) <==> rows_map::<T>(rows).values().filter(pred).contains(v) by {
        lemma_kept_contains(rows, pred, v);
        assert(rows.to_set().contains(v) == rows.contains(v));
    }
    assert(kept(rows, pred).to_set() =~= rows_map::<T>(rows).values().filter(pred));
}

/// A reordering of a sequence without duplicates has the same elements and
/// no duplicates.
pub proof fn lemma_reordering<A>(s: Seq<A>, t: Seq<A>)
    requires
        s.no_duplicates(),
        t.to_multiset() == s.to_multiset(),
    ensures
        t.to_set() == s.to_set(),
        t.no_duplicates(),
{
    broadcast use vstd::seq_lib::group_to_multiset_ensures, vstd::multiset::group_multiset_axioms;
    assert forall|v: A| t.to_set().contains(v) <==> s.to_set().contains(v) by {
        vstd::seq_lib::to_multiset_contains(t, v);
        vstd::seq_lib::to_multiset_contains(s, v);
    }
    assert(t.to_set() =~= s.to_set());
    s.lemma_multiset_has_no_duplicates();
    t.lemma_multiset_has_no_duplicates_conv();
}

/// A test on rows.
pub trait Keeps<T: Row> {
    /// The rows the test accepts, by view.
    spec fn wanted(&self, v: T::V) -> bool;

    /// Whether the test accepts a row.
    fn keeps(&self, row: &T) -> (b: bool)
        ensures
            b == self.wanted(row@),
    ;
}

/// The test that accepts every row.
pub struct AnyRow;

impl<T: Row> Keeps<T> for AnyRow {
    open spec fn wanted(&self, v: T::V) -> bool {
        true
    }

    fn keeps(&self, row: &T) -> (b: bool) {
        true
    }
}

impl<T: Row> Table<T> {
    /// Copies of the rows that `keep` accepts, in the order they were stored.
    pub fn rows_where<Q: Keeps<T>>(&self, keep: &Q, Ghost(pred): Ghost<spec_fn(T::V) -> bool>) -> (r: Vec<T>)
        requires
            forall|v: T::V| #[trigger] pred(v) == keep.wanted(v),
        ensures
            row_views(r@) == kept(self.rows_view(), pred),
            row_views(r@).to_set() == self@.values().filter(pred),
            row_views(r@).no_duplicates(),
    {
        let rows = self.rows();
        let ghost rv = self.rows_view();
        let mut out: Vec<T> = Vec::new();
        let mut i: usize = 0;
        assert(kept(rv.subrange(0, 0), pred) =~= Seq::<T::V>::empty());
        assert(row_views(out@) =~= Seq::<T::V>::empty());
        while i < rows.len()
            invariant
                i <= rows@.len(),
                row_views(rows@) == rv,
                forall|v: T::V| #[trigger] pred(v) == keep.wanted(v),
                row_views(out@) == kept(rv.subrange(0, i as int), pred),
            decreases rows@.len() - i,
        {
            let ghost pre = rv.subrange(0, i + 1);
            assert(pre.drop_last() =~= rv.subrange(0, i as int));
            assert(pre.last() == rows@[i as int]@);
            let ghost prev = row_views(out@);
            if keep.keeps(&rows[i]) {
                out.push(rows[i].duplicate());
                assert(row_views(out@) =~= prev.push(rows@[i as int]@));
            }
            i = i + 1;
        }
        assert(rv.subrange(0, rv.len() as int) =~= rv);
        proof {
            lemma_kept_values::<T>(rv, pred);
        }
        out
    }
}

/// Copies of the rows that `keep` accepts, in order: exactly the map's values
/// that satisfy `pred`, each once.
pub fn listing<T: Listed, Q: Keeps<T>>(table: &Table<T>, keep: &Q, Ghost(pred): Ghost<spec_fn(T::V) -> bool>) -> (r: Vec<T>)
    requires
        forall|v: T::V| #[trigger] pred(v) == keep.wanted(v),
    ensures
        row_views(r@).to_set() == table@.values().filter(pred),
        row_views(r@).no_duplicates(),
        in_order::<T>(row_views(r@)),
{
    let found = table.rows_where(keep, Ghost(pred));
    let sorted = sort_rows(found);
    proof {
        lemma_reordering(row_views(found@), row_views(sorted@));
    }
    sorted
}

} // verus!
