//! Identities of vector indexes.

use vstd::prelude::*;

verus! {

/// Identifies one logical vector index. Two identities denote the same index
/// exactly when their names are the same sequence of characters.
#[derive(Debug, Hash)]
pub struct IndexId(pub String);

impl View for IndexId {
    type V = Seq<char>;

    open spec fn view(&self) -> Seq<char> {
        self.0@
    }
}

/// The names of the identities in `ids`, in the same order.
pub open spec fn names(ids: Seq<IndexId>) -> Seq<Seq<char>> {
    ids.map_values(|id: IndexId| id@)
}

impl IndexId {
    /// Wraps a name as an index identity.
    pub fn new(name: String) -> (id: IndexId)
        ensures
            id@ == name@,
    {
        IndexId(name)
    }
}

impl Clone for IndexId {
    fn clone(&self) -> (id: IndexId)
        ensures
            id@ == self@,
    {
        IndexId(self.0.clone())
    }
}

impl PartialEq for IndexId {
    fn eq(&self, other: &IndexId) -> (r: bool) {
        self.0 == other.0
    }
}

impl Eq for IndexId {

}

impl vstd::std_specs::cmp::PartialEqSpecImpl for IndexId {
    open spec fn obeys_eq_spec() -> bool {
        true
    }

    open spec fn eq_spec(&self, other: &IndexId) -> bool {
        self@ == other@
    }
}

} // verus!
