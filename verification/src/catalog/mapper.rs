//! Mapping enriched records to the catalog's entities, and URL slugs.

use crate::text::{
    alphanumeric, ascii_lower, ascii_only, ascii_upper, chars_of, join, join_spec, lowercase_of, non_empty, non_empty_spec,
    split_chars, split_spec, to_lowercase, is_alphanumeric,
};
use crate::domain::{Artist, ArtistView, Event, EventView, Venue, VenueView};
use crate::enrich::EnrichedRecord;
use crate::normalize::{NormalizedEntity, NormalizedEntityView};
use crate::storage::records::copy_ids;
use crate::storage::table::Row;
use crate::text::{opt_clone, opt_view, owned};
use vstd::prelude::*;

verus! {

/// Every character that is not alphanumeric replaced by `-`.
pub open spec fn dashed(s: Seq<char>) -> Seq<char> {
    s.map_values(|c: char| if alphanumeric(c) { c } else { '-' })
}

/// The slug of an already lowercased name: its alphanumeric runs joined by
/// single dashes.
pub open spec fn slug_spec(lower: Seq<char>) -> Seq<char> {
    join_spec(non_empty_spec(split_spec(dashed(lower), '-')), "-"@)
}

/// The slug of an already lowercased name.
pub fn slug_of_lowercase(lower: &str) -> (r: String)
    ensures
        r@ == slug_spec(lower@),
{
    let cs = chars_of(lower);
    let mut m: Vec<char> = Vec::new();
    let mut i: usize = 0;
    while i < cs.len()
        invariant
            i <= cs@.len(),
            cs@ == lower@,
            m@ == dashed(cs@.subrange(0, i as int)),
        decreases cs@.len() - i,
    {
        let c = cs[i];
        if is_alphanumeric(c) {
            m.push(c);
        } else {
            m.push('-');
        }
        assert(m@ =~= dashed(cs@.subrange(0, i + 1)));
        i = i + 1;
    }
    assert(cs@.subrange(0, cs@.len() as int) =~= cs@);
    let pieces = split_chars(&m, '-');
    let words = non_empty(pieces);
    join(&words, "-")
}

/// Every piece is non-empty, and its characters are not dashes and meet `q`.
pub open spec fn words_ok(ps: Seq<Seq<char>>, q: spec_fn(char) -> bool) -> bool {
    forall|k: int| 0 <= k < ps.len() ==> #[trigger] ps[k].len() > 0 && (forall|j: int| 0 <= j < ps[k].len() ==> #[trigger] ps[k][j] != '-' && q(ps[k][j]))
}

/// The shape of a slug: every dash lies between two characters that are not
/// dashes (so none leads, none ends and no two are adjacent), and every other
/// character meets `q`.
pub open spec fn slug_shaped(t: Seq<char>, q: spec_fn(char) -> bool) -> bool {
    forall|i: int| 0 <= i < t.len() ==> (#[trigger] t[i] == '-' ==> 0 < i < t.len() - 1 && t[i - 1] != '-' && t[i + 1] != '-') && (t[i] != '-' ==> q(t[i]))
}

/// The slug of an ASCII name: that of its ASCII lowercase.
pub open spec fn ascii_slug(s: Seq<char>) -> Seq<char> {
    slug_spec(s.map_values(|c: char| ascii_lower(c)))
}

proof fn lemma_split_words(m: Seq<char>, q: spec_fn(char) -> bool)
    requires
        forall|i: int| 0 <= i < m.len() && #[trigger] m[i] != '-' ==> q(m[i]),
    ensures
        split_spec(m, '-').len() > 0,
        forall|k: int, j: int| 0 <= k < split_spec(m, '-').len() && 0 <= j < split_spec(m, '-')[k].len() ==>
            #[trigger] split_spec(m, '-')[k][j] != '-' && q(split_spec(m, '-')[k][j]),
    decreases m.len(),
{
    if m.len() > 0 {
        let p = m.drop_last();
        assert forall|i: int| 0 <= i < p.len() && #[trigger] p[i] != '-' implies q(p[i]) by {
            assert(p[i] == m[i]);
        }
        lemma_split_words(p, q);
        let prev = split_spec(p, '-');
        let r = split_spec(m, '-');
        if m.last() != '-' {
            assert(q(m[m.len() - 1]));
            assert forall|k: int, j: int| 0 <= k < r.len() && 0 <= j < r[k].len() implies #[trigger] r[k][j] != '-' && q(r[k][j]) by {
                if k == prev.len() - 1 {
                    if j < prev[k].len() {
                        assert(r[k][j] == prev[k][j]);
                    } else {
                        assert(r[k][j] == m.last());
                    }
                } else {
                    assert(r[k] == prev[k]);
                }
            }
        } else {
            assert forall|k: int, j: int| 0 <= k < r.len() && 0 <= j < r[k].len() implies #[trigger] r[k][j] != '-' && q(r[k][j]) by {
                assert(k < prev.len());
                assert(r[k] == prev[k]);
            }
        }
    }
}

proof fn lemma_non_empty_words(s: Seq<Seq<char>>, q: spec_fn(char) -> bool)
    requires
        forall|k: int, j: int| 0 <= k < s.len() && 0 <= j < s[k].len() ==> #[trigger] s[k][j] != '-' && q(s[k][j]),
    ensures
        words_ok(non_empty_spec(s), q),
    decreases s.len(),
{
    if s.len() > 0 {
        let d = s.drop_last();
        assert forall|k: int, j: int| 0 <= k < d.len() && 0 <= j < d[k].len() implies #[trigger] d[k][j] != '-' && q(d[k][j]) by {
            assert(d[k] == s[k]);
        }
        lemma_non_empty_words(d, q);
        let p = non_empty_spec(d);
        if s.last().len() > 0 {
            let r = p.push(s.last());
            assert forall|k: int| 0 <= k < r.len() implies #[trigger] r[k].len() > 0 && (forall|j: int| 0 <= j < r[k].len() ==> #[trigger] r[k][j] != '-' && q(r[k][j])) by {
                if k == p.len() {
                    assert forall|j: int| 0 <= j < r[k].len() implies #[trigger] r[k][j] != '-' && q(r[k][j]) by {
                        assert(r[k][j] == s[s.len() - 1][j]);
                    }
                } else {
                    assert(r[k] == p[k]);
                }
            }
        }
    }
}

proof fn lemma_join_shaped(ps: Seq<Seq<char>>, q: spec_fn(char) -> bool)
    requires
        words_ok(ps, q),
    ensures
        slug_shaped(join_spec(ps, "-"@), q),
        ps.len() > 0 ==> join_spec(ps, "-"@).len() > 0,
    decreases ps.len(),
{
    reveal_strlit("-");
    if ps.len() == 1 {
        let w = ps[0];
        assert(words_ok(ps, q));
        assert(w.len() > 0);
        assert forall|i: int| 0 <= i < w.len() implies (#[trigger] w[i] == '-' ==> 0 < i < w.len() - 1 && w[i - 1] != '-' && w[i + 1] != '-') && (w[i] != '-' ==> q(w[i])) by {
            assert(ps[0][i] == w[i]);
        }
    } else if ps.len() > 1 {
        let d = ps.drop_last();
        assert(words_ok(d, q)) by {
            assert forall|k: int| 0 <= k < d.len() implies #[trigger] d[k].len() > 0 && (forall|j: int| 0 <= j < d[k].len() ==> #[trigger] d[k][j] != '-' && q(d[k][j])) by {
                assert(d[k] == ps[k]);
            }
        }
        lemma_join_shaped(d, q);
        let a = join_spec(d, "-"@);
        let w = ps.last();
        assert(w.len() > 0 && w == ps[ps.len() - 1]);
        let t = a + "-"@ + w;
        assert(join_spec(ps, "-"@) == t);
        let n = a.len();
        assert(a[0] != '-' && a[n - 1] != '-') by {
            assert(0 <= 0 < a.len());
            assert(0 <= n - 1 < a.len());
        }
        assert forall|i: int| 0 <= i < t.len() implies (#[trigger] t[i] == '-' ==> 0 < i < t.len() - 1 && t[i - 1] != '-' && t[i + 1] != '-') && (t[i] != '-' ==> q(t[i])) by {
            if i < n {
                assert(t[i] == a[i]);
                if a[i] == '-' {
                    assert(t[i - 1] == a[i - 1] && t[i + 1] == a[i + 1]);
                }
            } else if i == n {
                assert(t[i - 1] == a[n - 1]);
                assert(t[i + 1] == w[0]);
                assert(ps[ps.len() - 1][0] != '-');
            } else {
                assert(t[i] == w[i - n - 1]);
                assert(ps[ps.len() - 1][i - n - 1] != '-' && q(ps[ps.len() - 1][i - n - 1]));
            }
        }
    }
}

/// Every slug has the shape of one: its characters are alphanumeric or
/// dashes, and every dash lies between two characters that are not dashes,
/// so that none leads, none ends and no two are adjacent.
pub proof fn lemma_slug_shape(lower: Seq<char>)
    ensures
        slug_shaped(slug_spec(lower), |c: char| alphanumeric(c)),
{
    let m = dashed(lower);
    let q = |c: char| alphanumeric(c);
    assert forall|i: int| 0 <= i < m.len() && #[trigger] m[i] != '-' implies q(m[i]) by {
        assert(m[i] == (if alphanumeric(lower[i]) { lower[i] } else { '-' }));
    }
    lemma_split_words(m, q);
    lemma_non_empty_words(split_spec(m, '-'), q);
    lemma_join_shaped(non_empty_spec(split_spec(m, '-')), q);
}

proof fn lemma_split_append(a: Seq<char>, b: Seq<char>)
    requires
        forall|i: int| 0 <= i < b.len() ==> #[trigger] b[i] != '-',
    ensures
        split_spec(a + b, '-') == split_spec(a, '-').update(split_spec(a, '-').len() - 1, split_spec(a, '-').last() + b),
    decreases b.len(),
{
    let sa = split_spec(a, '-');
    lemma_split_words(a, |c: char| true);
    if b.len() == 0 {
        assert(a + b =~= a);
        assert(sa.last() + b =~= sa.last());
        assert(sa.update(sa.len() - 1, sa.last() + b) =~= sa);
    } else {
        let b0 = b.drop_last();
        assert forall|i: int| 0 <= i < b0.len() implies #[trigger] b0[i] != '-' by {
            assert(b0[i] == b[i]);
        }
        lemma_split_append(a, b0);
        assert((a + b).drop_last() =~= a + b0);
        assert((a + b).last() == b[b.len() - 1]);
        let prev = split_spec(a + b0, '-');
        assert(prev.last() == sa.last() + b0);
        assert(prev.last().push(b.last()) =~= sa.last() + b);
        assert(prev.update(prev.len() - 1, prev.last().push(b.last())) =~= sa.update(sa.len() - 1, sa.last() + b));
    }
}

proof fn lemma_split_join(ps: Seq<Seq<char>>, q: spec_fn(char) -> bool)
    requires
        ps.len() > 0,
        words_ok(ps, q),
    ensures
        split_spec(join_spec(ps, "-"@), '-') == ps,
    decreases ps.len(),
{
    reveal_strlit("-");
    let w = ps.last();
    assert(w == ps[ps.len() - 1]);
    assert forall|i: int| 0 <= i < w.len() implies #[trigger] w[i] != '-' by {
        assert(ps[ps.len() - 1][i] != '-');
    }
    if ps.len() == 1 {
        lemma_split_append(Seq::empty(), w);
        assert(Seq::<char>::empty() + w =~= w);
        assert(split_spec(Seq::<char>::empty(), '-') == seq![Seq::<char>::empty()]);
        assert(Seq::<char>::empty() + w =~= w);
        assert(seq![Seq::<char>::empty()].update(0, Seq::<char>::empty() + w) =~= ps);
    } else {
        let d = ps.drop_last();
        assert(words_ok(d, q)) by {
            assert forall|k: int| 0 <= k < d.len() implies #[trigger] d[k].len() > 0 && (forall|j: int| 0 <= j < d[k].len() ==> #[trigger] d[k][j] != '-' && q(d[k][j])) by {
                assert(d[k] == ps[k]);
            }
        }
        lemma_split_join(d, q);
        let a = join_spec(d, "-"@);
        let ad = a + "-"@;
        assert(ad.drop_last() =~= a);
        assert(ad.last() == '-');
        assert(split_spec(ad, '-') == d.push(Seq::<char>::empty()));
        lemma_split_append(ad, w);
        assert(join_spec(ps, "-"@) == ad + w);
        assert(Seq::<char>::empty() + w =~= w);
        assert(d.push(Seq::<char>::empty()).update(d.len() as int, Seq::<char>::empty() + w) =~= ps);
    }
}

proof fn lemma_non_empty_same(ps: Seq<Seq<char>>)
    requires
        forall|k: int| 0 <= k < ps.len() ==> #[trigger] ps[k].len() > 0,
    ensures
        non_empty_spec(ps) == ps,
    decreases ps.len(),
{
    if ps.len() > 0 {
        let d = ps.drop_last();
        assert forall|k: int| 0 <= k < d.len() implies #[trigger] d[k].len() > 0 by {
            assert(d[k] == ps[k]);
        }
        lemma_non_empty_same(d);
        assert(ps.last() == ps[ps.len() - 1]);
        assert(d.push(ps.last()) =~= ps);
    }
}

/// What a slug's characters are: no ASCII name has a slug with characters
/// outside ASCII or with capitals.
spec fn small_alphanumeric(c: char) -> bool {
    alphanumeric(c) && (c as u32) < 128 && !ascii_upper(c)
}

/// Slugging is idempotent on ASCII names: the slug of an ASCII name is ASCII
/// and is its own slug.
pub proof fn lemma_ascii_slug_idempotent(s: Seq<char>)
    requires
        ascii_only(s),
    ensures
        ascii_only(ascii_slug(s)),
        ascii_slug(ascii_slug(s)) == ascii_slug(s),
{
    reveal_strlit("-");
    let lower = s.map_values(|c: char| ascii_lower(c));
    let m = dashed(lower);
    let q = |c: char| small_alphanumeric(c);
    assert forall|i: int| 0 <= i < m.len() && #[trigger] m[i] != '-' implies q(m[i]) by {
        let c = s[i];
        assert(lower[i] == ascii_lower(c));
        assert((c as u32) < 128);
        if ascii_upper(c) {
            assert(((c as u32) + 32) as char == lower[i]);
            assert(!ascii_upper(lower[i]) && (lower[i] as u32) < 128);
        }
    }
    lemma_split_words(m, q);
    let ps = non_empty_spec(split_spec(m, '-'));
    lemma_non_empty_words(split_spec(m, '-'), q);
    lemma_join_shaped(ps, q);
    let t = join_spec(ps, "-"@);
    assert(t == ascii_slug(s));
    assert forall|i: int| 0 <= i < t.len() implies (#[trigger] t[i] as u32) < 128 by {
        if t[i] != '-' {
            assert(q(t[i]));
        }
    }
    let tl = t.map_values(|c: char| ascii_lower(c));
    assert(tl =~= t) by {
        assert forall|i: int| 0 <= i < t.len() implies tl[i] == t[i] by {
            if t[i] != '-' {
                assert(q(t[i]));
            }
        }
    }
    assert(dashed(t) =~= t) by {
        assert forall|i: int| 0 <= i < t.len() implies dashed(t)[i] == t[i] by {
            if t[i] != '-' {
                assert(q(t[i]));
            }
        }
    }
    if ps.len() == 0 {
        assert(t == Seq::<char>::empty());
        assert(split_spec(t, '-') == seq![Seq::<char>::empty()]);
        let one = seq![Seq::<char>::empty()];
        assert(one.drop_last() =~= Seq::<Seq<char>>::empty());
        assert(non_empty_spec(Seq::<Seq<char>>::empty()) == Seq::<Seq<char>>::empty());
        assert(one.last().len() == 0);
        assert(non_empty_spec(one) == Seq::<Seq<char>>::empty());
    } else {
        lemma_split_join(ps, q);
        assert forall|k: int| 0 <= k < ps.len() implies #[trigger] ps[k].len() > 0 by {}
        lemma_non_empty_same(ps);
    }
}

/// Entity helpers.
pub struct EntityUtils;

impl EntityUtils {
    /// A URL-friendly slug of a name: lowercased, with every run of
    /// non-alphanumeric characters turned into one dash and none at the ends.
    pub fn generate_slug(name: &str) -> (r: String)
        ensures
            r@ == slug_spec(lowercase_of(name@)),
            ascii_only(name@) ==> r@ == ascii_slug(name@),
    {
        let lower = to_lowercase(name);
        slug_of_lowercase(lower.as_str())
    }
}

/// Why a record could not be mapped.
#[derive(Debug)]
pub enum MapError {
    /// The record lacks what the mapping needs.
    MissingField(String),
}

/// Maps enriched venue records to venues.
pub trait VenueMapper {
    /// The venue of a record.
    fn to_venue(&self, record: &EnrichedRecord) -> Result<Venue, MapError>;
}

/// Maps enriched event records to events at a venue.
pub trait EventMapper {
    /// The event of a record, at `venue_id`.
    fn to_event(&self, record: &EnrichedRecord, venue_id: u128) -> Result<Event, MapError>;
}

/// Maps enriched artist records to artists.
pub trait ArtistMapper {
    /// The artist of a record.
    fn to_artist(&self, record: &EnrichedRecord) -> Result<Artist, MapError>;
}

/// The normalized entity of an enriched record.
pub open spec fn entity_of(record: EnrichedRecord) -> NormalizedEntityView {
    record.quality_assessed_record.normalized_record.entity@
}

/// Maps venues, taking the enrichment's city and district.
pub struct DefaultVenueMapper;

/// Maps events, placing them at the venue given.
pub struct DefaultEventMapper;

/// Maps artists as they are.
pub struct DefaultArtistMapper;

/// The venue of a venue record: the enrichment's city and district, where
/// it has them, in place of the venue's city and neighbourhood.
pub open spec fn mapped_venue(v: VenueView, city: Option<Seq<char>>, district: Option<Seq<char>>) -> VenueView {
    VenueView {
        city: match city {
            Some(c) => c,
            None => v.city,
        },
        neighborhood: match district {
            Some(d) => Some(d),
            None => v.neighborhood,
        },
        ..v
    }
}

impl VenueMapper for DefaultVenueMapper {
    fn to_venue(&self, record: &EnrichedRecord) -> (r: Result<Venue, MapError>)
        ensures
            match entity_of(*record) {
                NormalizedEntityView::Venue(v) => r matches Ok(x) && x@ == mapped_venue(v, opt_view(record.enrichment.city),
                    opt_view(record.enrichment.district)),
                _ => r matches Err(MapError::MissingField(m)) && m@ == "Expected Venue entity in normalized record"@,
            },
    {
        match &record.quality_assessed_record.normalized_record.entity {
            NormalizedEntity::Venue(v) => {
                let mut venue = v.duplicate();
                match &record.enrichment.city {
                    Some(c) => {
                        venue.city = c.clone();
                    },
                    None => {},
                }
                match &record.enrichment.district {
                    Some(d) => {
                        venue.neighborhood = Some(d.clone());
                    },
                    None => {},
                }
                Ok(venue)
            },
            _ => Err(MapError::MissingField(owned("Expected Venue entity in normalized record"))),
        }
    }
}

impl EventMapper for DefaultEventMapper {
    fn to_event(&self, record: &EnrichedRecord, venue_id: u128) -> (r: Result<Event, MapError>)
        ensures
            match entity_of(*record) {
                NormalizedEntityView::Event(e) => r matches Ok(x) && x@ == (EventView { id: None, venue_id: venue_id, ..e }),
                _ => r matches Err(MapError::MissingField(m)) && m@ == "Expected Event entity in normalized record"@,
            },
    {
        match &record.quality_assessed_record.normalized_record.entity {
            NormalizedEntity::Event(e) => Ok(Event {
                id: None,
                title: e.title.clone(),
                event_day: e.event_day,
                start_time: e.start_time,
                event_url: opt_clone(&e.event_url),
                description: opt_clone(&e.description),
                event_image_url: opt_clone(&e.event_image_url),
                venue_id,
                artist_ids: copy_ids(&e.artist_ids),
                show_event: e.show_event,
                finalized: e.finalized,
                created_at: e.created_at,
            }),
            _ => Err(MapError::MissingField(owned("Expected Event entity in normalized record"))),
        }
    }
}

impl ArtistMapper for DefaultArtistMapper {
    fn to_artist(&self, record: &EnrichedRecord) -> (r: Result<Artist, MapError>)
        ensures
            match entity_of(*record) {
                NormalizedEntityView::Artist(a) => r matches Ok(x) && x@ == a,
                _ => r matches Err(MapError::MissingField(m)) && m@ == "Expected Artist entity in normalized record"@,
            },
    {
        match &record.quality_assessed_record.normalized_record.entity {
            NormalizedEntity::Artist(a) => Ok(a.duplicate()),
            _ => Err(MapError::MissingField(owned("Expected Artist entity in normalized record"))),
        }
    }
}

} // verus!
