//! The set of addon identifiers that the repository knows.
use vstd::prelude::*;

verus! {

/// The views of a list of identifiers.
pub open spec fn id_views(ids: Seq<String>) -> Seq<Seq<char>> {
    ids.map_values(|s: String| s@)
}

/// The known addon identifiers, fixed when the index is built.
pub struct AddonIndex {
    ids: Vec<String>,
}

impl View for AddonIndex {
    type V = Set<Seq<char>>;

    closed spec fn view(&self) -> Set<Seq<char>> {
        id_views(self.ids@).to_set()
    }
}

impl AddonIndex {
    /// An index of exactly the given identifiers.
    pub fn from_ids(ids: Vec<String>) -> (r: AddonIndex)
        ensures
            r@ == id_views(ids@).to_set(),
            forall|id: Seq<char>| r@.contains(id) <==> id_views(ids@).contains(id),
    {
        AddonIndex { ids }
    }

    /// Whether `id` is one of the known identifiers.
    pub fn contains(&self, id: &str) -> (r: bool)
        ensures
            r == self@.contains(id@),
    {
        let wanted = String::from_str(id);
        let mut i: usize = 0;
        while i < self.ids.len()
            invariant
                i <= self.ids.len(),
                wanted@ == id@,
                forall|j: int| 0 <= j < i ==> self.ids@[j]@ != id@,
            decreases self.ids.len() - i,
        {
            if self.ids[i] == wanted {
                assert(id_views(self.ids@)[i as int] == id@);
                return true;
            }
            i = i + 1;
        }
        proof {
            if id_views(self.ids@).contains(id@) {
                let j = choose|j: int| 0 <= j < self.ids.len() && id_views(self.ids@)[j] == id@;
                assert(self.ids@[j]@ == id@);
            }
        }
        false
    }
}

} // verus!
