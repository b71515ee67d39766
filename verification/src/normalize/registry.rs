//! The registry of source-specific normalizers, by source id.

use crate::domain::CalendarDate;
use crate::normalize::extract::NormalizeError;
use crate::normalize::normalizers::{
    conor_byrne_records, darrells_records, kexp_records, ConorByrneNormalizer, DarrellsTavernNormalizer, KexpNormalizer,
};
use crate::normalize::NormalizedRecord;
use crate::parser::ParsedRecord;
use crate::text::{owned, str_eq};
use vstd::prelude::*;

verus! {

/// The normalization strategy of a source.
#[derive(Debug, Clone, Copy, PartialEq, Eq, Structural)]
pub enum NormalizerKind {
    SeaMonster,
    DarrellsTavern,
    BlueMoon,
    Kexp,
    Barboza,
    ConorByrne,
}

/// Source ids mapped to normalization strategies.
pub struct NormalizationRegistry {
    normalizers: Vec<(String, NormalizerKind)>,
    darrells: DarrellsTavernNormalizer,
    kexp: KexpNormalizer,
    conor_byrne: ConorByrneNormalizer,
}

/// The keys of `v`, in order.
pub open spec fn keys_of(v: Seq<(String, NormalizerKind)>) -> Seq<Seq<char>> {
    v.map_values(|e: (String, NormalizerKind)| e.0@)
}

impl View for NormalizationRegistry {
    type V = Map<Seq<char>, NormalizerKind>;

    closed spec fn view(&self) -> Map<Seq<char>, NormalizerKind> {
        Map::new(
            |k: Seq<char>| keys_of(self.normalizers@).contains(k),
            |k: Seq<char>| self.normalizers@[keys_of(self.normalizers@).index_of(k)].1,
        )
    }
}

impl NormalizationRegistry {
    #[verifier::type_invariant]
    closed spec fn distinct_keys(&self) -> bool {
        keys_of(self.normalizers@).no_duplicates()
    }

    proof fn lemma_lookup(&self, i: int)
        requires
            self.distinct_keys(),
            0 <= i < self.normalizers@.len(),
        ensures
            self@.contains_key(self.normalizers@[i].0@),
            self@[self.normalizers@[i].0@] == self.normalizers@[i].1,
    {
        let ks = keys_of(self.normalizers@);
        assert(ks[i] == self.normalizers@[i].0@);
        assert(ks.contains(ks[i]));
        ks.index_of_first(ks[i]);
        let j = ks.index_of(ks[i]);
        assert(ks[j] == ks[i]);
    }

    /// The registry with the built-in normalizers: `sea_monster`,
    /// `darrells_tavern` and `blue_moon`.
    pub fn new() -> (r: Self)
        ensures
            r@ == map![
                "sea_monster"@ => NormalizerKind::SeaMonster,
                "darrells_tavern"@ => NormalizerKind::DarrellsTavern,
                "blue_moon"@ => NormalizerKind::BlueMoon,
            ],
            !r.darrells_venue_done() && r.darrells_seen() == Set::<Seq<char>>::empty(),
            !r.kexp_venue_done() && r.kexp_seen() == Set::<Seq<char>>::empty(),
            !r.conor_byrne_venue_done() && r.conor_byrne_seen() == Set::<Seq<char>>::empty(),
    {
        let mut r = NormalizationRegistry {
            normalizers: Vec::new(),
            darrells: DarrellsTavernNormalizer::new(),
            kexp: KexpNormalizer::new(),
            conor_byrne: ConorByrneNormalizer::new(),
        };
        proof {
            assert(keys_of(r.normalizers@) =~= Seq::<Seq<char>>::empty());
            assert(r@ =~= Map::<Seq<char>, NormalizerKind>::empty());
        }
        r.register(owned("sea_monster"), NormalizerKind::SeaMonster);
        r.register(owned("darrells_tavern"), NormalizerKind::DarrellsTavern);
        r.register(owned("blue_moon"), NormalizerKind::BlueMoon);
        proof {
            assert(r@ =~= map![
                "sea_monster"@ => NormalizerKind::SeaMonster,
                "darrells_tavern"@ => NormalizerKind::DarrellsTavern,
                "blue_moon"@ => NormalizerKind::BlueMoon,
            ]);
        }
        r
    }

    fn position(&self, source_id: &str) -> (r: Option<usize>)
        ensures
            match r {
                Some(i) => i < self.normalizers@.len() && self.normalizers@[i as int].0@ == source_id@,
                None => !keys_of(self.normalizers@).contains(source_id@),
            },
    {
        let ghost ks = keys_of(self.normalizers@);
        let mut i: usize = 0;
        while i < self.normalizers.len()
            invariant
                i <= self.normalizers@.len(),
                ks == keys_of(self.normalizers@),
                forall|j: int| 0 <= j < i ==> ks[j] != source_id@,
            decreases self.normalizers@.len() - i,
        {
            if str_eq(self.normalizers[i].0.as_str(), source_id) {
                return Some(i);
            }
            i = i + 1;
        }
        None
    }

    /// Registers `normalizer` for `source_id`, replacing any earlier one.
    pub fn register(&mut self, source_id: String, normalizer: NormalizerKind)
        ensures
            final(self)@ == old(self)@.insert(source_id@, normalizer),
            final(self).darrells_venue_done() == old(self).darrells_venue_done(),
            final(self).darrells_seen() == old(self).darrells_seen(),
            final(self).kexp_venue_done() == old(self).kexp_venue_done(),
            final(self).kexp_seen() == old(self).kexp_seen(),
            final(self).conor_byrne_venue_done() == old(self).conor_byrne_venue_done(),
            final(self).conor_byrne_seen() == old(self).conor_byrne_seen(),
    {
        proof {
            use_type_invariant(&*self);
        }
        let ghost before = *self;
        let ghost k = source_id@;
        match self.position(source_id.as_str()) {
            Some(i) => {
                let ghost ks = keys_of(self.normalizers@);
                let mut entries = Vec::new();
                std::mem::swap(&mut entries, &mut self.normalizers);
                entries.set(i, (source_id, normalizer));
                proof {
                    let nks = keys_of(entries@);
                    assert(nks =~= ks.update(i as int, k));
                    assert(nks =~= ks);
                    assert(ks[i as int] == k);
                    assert(ks.contains(k));
                    assert forall|q: Seq<char>| #[trigger] nks.contains(q) implies
                        entries@[nks.index_of(q)].1 == (if q == k { normalizer } else { before@[q] }) by {
                        nks.index_of_first(q);
                        if q != k {
                            before.lemma_lookup(nks.index_of(q));
                        } else {
                            assert(nks.index_of(q) == i) by {
                                if nks.index_of(q) != i {
                                    assert(nks[i as int] == q);
                                }
                            }
                        }
                    }
                }
                self.normalizers = entries;
                proof {
                    assert(self@.dom() =~= before@.insert(k, normalizer).dom());
                    assert(self@ =~= before@.insert(k, normalizer));
                }
            },
            None => {
                let ghost ks = keys_of(self.normalizers@);
                let mut entries = Vec::new();
                std::mem::swap(&mut entries, &mut self.normalizers);
                entries.push((source_id, normalizer));
                proof {
                    let nks = keys_of(entries@);
                    assert(nks =~= ks.push(k));
                    assert forall|q: Seq<char>| #[trigger] nks.contains(q) implies
                        entries@[nks.index_of(q)].1 == (if q == k { normalizer } else { before@[q] }) by {
                        nks.index_of_first(q);
                        let j = nks.index_of(q);
                        if q == k {
                            assert(nks[ks.len() as int] == k);
                            if j < ks.len() {
                                assert(ks[j] == k);
                                assert(ks.contains(k));
                            }
                        } else {
                            assert(j < ks.len());
                            assert(ks[j] == q);
                            ks.index_of_first(q);
                            before.lemma_lookup(j);
                        }
                    }
                }
                self.normalizers = entries;
                proof {
                    let nks = keys_of(self.normalizers@);
                    assert forall|q: Seq<char>| nks.contains(q) <==> (ks.contains(q) || q == k) by {
                        if ks.contains(q) {
                            let j = choose|j: int| 0 <= j < ks.len() && ks[j] == q;
                            assert(nks[j] == q);
                        }
                        if q == k {
                            assert(nks[ks.len() as int] == k);
                        }
                        if nks.contains(q) {
                            let j = choose|j: int| 0 <= j < nks.len() && nks[j] == q;
                            if j < ks.len() {
                                assert(ks[j] == q);
                            }
                        }
                    }
                    assert(self@.dom() =~= before@.insert(k, normalizer).dom());
                    assert(self@ =~= before@.insert(k, normalizer));
                }
            },
        }
    }

    /// The normalizer registered for `source_id`, if any.
    pub fn get_normalizer(&self, source_id: &str) -> (r: Option<NormalizerKind>)
        ensures
            r == (if self@.contains_key(source_id@) { Some(self@[source_id@]) } else { None::<NormalizerKind> }),
    {
        proof {
            use_type_invariant(self);
        }
        match self.position(source_id) {
            Some(i) => {
                proof {
                    self.lemma_lookup(i as int);
                }
                Some(self.normalizers[i].1)
            },
            None => None,
        }
    }

    /// The normalizer that a record's source is registered with; an error
    /// naming the source when it has none.
    pub fn resolve(&self, record: &ParsedRecord) -> (r: Result<NormalizerKind, NormalizeError>)
        ensures
            self@.contains_key(record.source_id@) ==> r == Ok::<NormalizerKind, NormalizeError>(self@[record.source_id@]),
            !self@.contains_key(record.source_id@) ==> (r matches Err(NormalizeError::Unsupported(m))
                && m@ == "No normalizer registered for source: "@ + record.source_id@),
    {
        match self.get_normalizer(record.source_id.as_str()) {
            Some(k) => Ok(k),
            None => {
                let mut m = owned("No normalizer registered for source: ");
                m.append(record.source_id.as_str());
                Err(NormalizeError::Unsupported(m))
            },
        }
    }

    /// Whether the Darrell's Tavern normalizer has emitted its venue.
    pub closed spec fn darrells_venue_done(&self) -> bool {
        self.darrells.venue_state.created
    }

    /// The artist slugs the Darrell's Tavern normalizer has emitted.
    pub closed spec fn darrells_seen(&self) -> Set<Seq<char>> {
        self.darrells.artist_state@
    }

    /// Whether the KEXP normalizer has emitted its venue.
    pub closed spec fn kexp_venue_done(&self) -> bool {
        self.kexp.venue_state.created
    }

    /// The artist slugs the KEXP normalizer has emitted.
    pub closed spec fn kexp_seen(&self) -> Set<Seq<char>> {
        self.kexp.artist_state@
    }

    /// Whether the Conor Byrne normalizer has emitted its venue.
    pub closed spec fn conor_byrne_venue_done(&self) -> bool {
        self.conor_byrne.venue_state.created
    }

    /// The artist slugs the Conor Byrne normalizer has emitted.
    pub closed spec fn conor_byrne_seen(&self) -> Set<Seq<char>> {
        self.conor_byrne.artist_state@
    }

    /// Normalizes a record with the normalizer its source is registered
    /// with: an error naming the source when it has none, or when its
    /// normalizer is not one this library holds (those of Sea Monster,
    /// Blue Moon and Barboza); `non_artist` tells whether the record's title
    /// names a non-artist event and `act_flags[i]` whether its `i`-th
    /// supporting act does (read by the Conor Byrne normalizer only).
    pub fn normalize(
        &mut self,
        record: &ParsedRecord,
        non_artist: bool,
        act_flags: &Vec<bool>,
        today: CalendarDate,
        now: i64,
    ) -> (r: Result<Vec<NormalizedRecord>, NormalizeError>)
        ensures
            final(self)@ == old(self)@,
            !old(self)@.contains_key(record.source_id@) ==> (r matches Err(NormalizeError::Unsupported(m))
                && m@ == "No normalizer registered for source: "@ + record.source_id@),
            old(self)@.contains_key(record.source_id@) && old(self)@[record.source_id@] == NormalizerKind::DarrellsTavern ==> (r matches Ok(out)
                && darrells_records(out@, *record, non_artist, old(self).darrells_venue_done(), old(self).darrells_seen(), today, now)),
            old(self)@.contains_key(record.source_id@) && old(self)@[record.source_id@] == NormalizerKind::Kexp ==> (r matches Ok(out)
                && kexp_records(out@, *record, non_artist, old(self).kexp_venue_done(), old(self).kexp_seen(), today, now)),
            old(self)@.contains_key(record.source_id@) && old(self)@[record.source_id@] == NormalizerKind::ConorByrne ==> (r matches Ok(out)
                && conor_byrne_records(out@, *record, non_artist, act_flags@, old(self).conor_byrne_venue_done(),
                old(self).conor_byrne_seen(), today, now)),
            old(self)@.contains_key(record.source_id@) && old(self)@[record.source_id@] != NormalizerKind::DarrellsTavern
                && old(self)@[record.source_id@] != NormalizerKind::Kexp
                && old(self)@[record.source_id@] != NormalizerKind::ConorByrne ==> (r matches Err(NormalizeError::Unsupported(m))
                && m@ == "No normalizer available for source: "@ + record.source_id@),
    {
        proof {
            use_type_invariant(&*self);
        }
        match self.resolve(record) {
            Err(e) => Err(e),
            Ok(NormalizerKind::DarrellsTavern) => {
                let mut d = DarrellsTavernNormalizer::new();
                std::mem::swap(&mut d, &mut self.darrells);
                let out = d.normalize_at(record, non_artist, today, now);
                self.darrells = d;
                Ok(out)
            },
            Ok(NormalizerKind::Kexp) => {
                let mut k = KexpNormalizer::new();
                std::mem::swap(&mut k, &mut self.kexp);
                let out = k.normalize_at(record, non_artist, today, now);
                self.kexp = k;
                Ok(out)
            },
            Ok(NormalizerKind::ConorByrne) => {
                let mut c = ConorByrneNormalizer::new();
                std::mem::swap(&mut c, &mut self.conor_byrne);
                let out = c.normalize_at(record, non_artist, act_flags, today, now);
                self.conor_byrne = c;
                Ok(out)
            },
            Ok(_) => {
                let mut m = owned("No normalizer available for source: ");
                m.append(record.source_id.as_str());
                Err(NormalizeError::Unsupported(m))
            },
        }
    }

    /// The registered source ids, each once, in no particular order.
    pub fn list_sources(&self) -> (r: Vec<String>)
        ensures
            r@.map_values(|s: String| s@).to_set() == self@.dom(),
            r@.map_values(|s: String| s@).no_duplicates(),
    {
        proof {
            use_type_invariant(self);
        }
        let ghost ks = keys_of(self.normalizers@);
        let mut r: Vec<String> = Vec::new();
        let mut i: usize = 0;
        while i < self.normalizers.len()
            invariant
                i <= self.normalizers@.len(),
                ks == keys_of(self.normalizers@),
                r@.map_values(|s: String| s@) == ks.subrange(0, i as int),
            decreases self.normalizers@.len() - i,
        {
            assert(ks[i as int] == self.normalizers@[i as int].0@);
            let ghost before = r@.map_values(|s: String| s@);
            let name = self.normalizers[i].0.clone();
            assert(name@ == ks[i as int]);
            r.push(name);
            assert(r@.map_values(|s: String| s@) =~= before.push(ks[i as int]));
            assert(r@.map_values(|s: String| s@) =~= ks.subrange(0, i + 1));
            i = i + 1;
        }
        proof {
            assert(ks.subrange(0, self.normalizers@.len() as int) =~= ks);
            assert(ks.to_set() =~= self@.dom());
        }
        r
    }
}

/// What a registration does: the source now has the registered normalizer,
/// and every other source keeps the one it had.
pub proof fn lemma_register_then_get(
    m: Map<Seq<char>, NormalizerKind>,
    source_id: Seq<char>,
    normalizer: NormalizerKind,
    other: Seq<char>,
)
    ensures
        m.insert(source_id, normalizer).contains_key(source_id),
        m.insert(source_id, normalizer)[source_id] == normalizer,
        other != source_id ==> m.insert(source_id, normalizer).contains_key(other) == m.contains_key(other),
        other != source_id && m.contains_key(other) ==> m.insert(source_id, normalizer)[other] == m[other],
{
}

} // verus!
