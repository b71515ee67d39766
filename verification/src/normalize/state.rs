//! What a source normalizer has already emitted: its venue, and the artists
//! by slug, so that each is created once.

use crate::text::str_eq;
use vstd::prelude::*;
use vstd::string::*;

verus! {

/// Whether the source's venue has been emitted.
#[derive(Debug)]
pub struct VenueStateManager {
    pub created: bool,
}

impl VenueStateManager {
    /// Nothing emitted yet.
    pub fn new() -> (r: Self)
        ensures
            !r.created,
    {
        VenueStateManager { created: false }
    }

    /// True the first time only: the venue is to be created now.
    pub fn should_create_venue(&mut self) -> (r: bool)
        ensures
            r == !old(self).created,
            final(self).created,
    {
        let r = !self.created;
        self.created = true;
        r
    }
}

/// The slugs of the artists already emitted.
#[derive(Debug)]
pub struct ArtistStateManager {
    seen: Vec<String>,
}

impl View for ArtistStateManager {
    type V = Set<Seq<char>>;

    closed spec fn view(&self) -> Set<Seq<char>> {
        self.seen@.map_values(|s: String| s@).to_set()
    }
}

impl ArtistStateManager {
    /// No artist emitted yet.
    pub fn new() -> (r: Self)
        ensures
            r@ == Set::<Seq<char>>::empty(),
    {
        let r = ArtistStateManager { seen: Vec::new() };
        assert(r.seen@.map_values(|s: String| s@) =~= Seq::<Seq<char>>::empty());
        r
    }

    /// True exactly when `slug` has not been seen; it is seen afterwards.
    pub fn should_create_artist(&mut self, slug: &str) -> (r: bool)
        ensures
            r == !old(self)@.contains(slug@),
            final(self)@ == old(self)@.insert(slug@),
    {
        let ghost vs = self.seen@.map_values(|s: String| s@);
        let mut i: usize = 0;
        while i < self.seen.len()
            invariant
                i <= self.seen@.len(),
                vs == self.seen@.map_values(|s: String| s@),
                forall|j: int| 0 <= j < i ==> vs[j] != slug@,
            decreases self.seen@.len() - i,
        {
            if str_eq(self.seen[i].as_str(), slug) {
                proof {
                    assert(vs[i as int] == slug@);
                    assert(vs.to_set().contains(slug@));
                    assert(vs.to_set().insert(slug@) =~= vs.to_set());
                }
                return false;
            }
            i = i + 1;
        }
        proof {
            assert(!vs.contains(slug@));
        }
        self.seen.push(String::from_str(slug));
        proof {
            let nv = self.seen@.map_values(|s: String| s@);
            assert(nv =~= vs.push(slug@));
            vs.lemma_push_to_set_commute(slug@);
        }
        true
    }
}

/// Asking twice for the same slug gives true at most once.
pub proof fn lemma_artist_created_once(seen: Set<Seq<char>>, slug: Seq<char>)
    ensures
        seen.insert(slug).contains(slug),
{
}

} // verus!
