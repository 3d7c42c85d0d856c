//! A registry maps index identities to the handles of running actors.

use crate::ident::{names, IndexId};
use vstd::prelude::*;

verus! {

struct Slot<H> {
    id: IndexId,
    handle: H,
}

/// Slot `i` of `slots` exists and belongs to `id`.
spec fn holds_at<H>(slots: Seq<Slot<H>>, i: int, id: Seq<char>) -> bool {
    0 <= i < slots.len() && slots[i].id@ == id
}

/// No identity owns two of the slots.
spec fn distinct<H>(slots: Seq<Slot<H>>) -> bool {
    forall|i: int, j: int| 0 <= i < j < slots.len() ==> slots[i].id@ != slots[j].id@
}

/// The map that the slots stand for.
spec fn as_map<H>(slots: Seq<Slot<H>>) -> Map<Seq<char>, H> {
    Map::new(
        |id: Seq<char>| exists|i: int| holds_at(slots, i, id),
        |id: Seq<char>| slots[choose|i: int| holds_at(slots, i, id)].handle,
    )
}

/// The identity of every slot is mapped to the handle of that slot.
proof fn lemma_slot_is_mapped<H>(slots: Seq<Slot<H>>, i: int)
    requires
        distinct(slots),
        0 <= i < slots.len(),
    ensures
        as_map(slots).contains_key(slots[i].id@),
        as_map(slots)[slots[i].id@] == slots[i].handle,
{
    let id = slots[i].id@;
    assert(holds_at(slots, i, id));
    let k = choose|k: int| holds_at(slots, k, id);
    assert(k == i);
}

/// Taking one slot away takes its identity, and nothing else, out of the map.
proof fn lemma_remove_slot<H>(slots: Seq<Slot<H>>, i: int)
    requires
        distinct(slots),
        0 <= i < slots.len(),
    ensures
        distinct(slots.remove(i)),
        as_map(slots.remove(i)) == as_map(slots).remove(slots[i].id@),
{
    let rest = slots.remove(i);
    let gone = slots[i].id@;
    assert forall|a: int, b: int| 0 <= a < b < rest.len() implies rest[a].id@ != rest[b].id@ by {
        let oa = if a < i { a } else { a + 1 };
        let ob = if b < i { b } else { b + 1 };
        assert(rest[a] == slots[oa] && rest[b] == slots[ob]);
    }
    assert forall|k: Seq<char>|
        k != gone && #[trigger] as_map(slots).contains_key(k) implies as_map(rest).contains_key(k)
        && as_map(rest)[k] == as_map(slots)[k] by {
        let o = choose|o: int| holds_at(slots, o, k);
        lemma_slot_is_mapped(slots, o);
        let n = if o < i { o } else { o - 1 };
        assert(rest[n] == slots[o]);
        lemma_slot_is_mapped(rest, n);
    }
    assert forall|k: Seq<char>| #[trigger] as_map(rest).contains_key(k) implies k != gone
        && as_map(slots).contains_key(k) by {
        let n = choose|n: int| holds_at(rest, n, k);
        let o = if n < i { n } else { n + 1 };
        assert(rest[n] == slots[o]);
        assert(holds_at(slots, o, k));
    }
    assert(as_map(rest) =~= as_map(slots).remove(gone));
}

/// Appending a slot for an identity that owns none maps that identity to the
/// new handle and changes nothing else.
proof fn lemma_push_slot<H>(slots: Seq<Slot<H>>, slot: Slot<H>)
    requires
        distinct(slots),
        !as_map(slots).contains_key(slot.id@),
    ensures
        distinct(slots.push(slot)),
        as_map(slots.push(slot)) == as_map(slots).insert(slot.id@, slot.handle),
{
    let more = slots.push(slot);
    let key = slot.id@;
    assert forall|a: int, b: int| 0 <= a < b < more.len() implies more[a].id@ != more[b].id@ by {
        if b == slots.len() {
            assert(!holds_at(slots, a, key));
        }
    }
    lemma_slot_is_mapped(more, slots.len() as int);
    assert forall|k: Seq<char>|
        k != key && #[trigger] as_map(slots).contains_key(k) implies as_map(more).contains_key(k)
        && as_map(more)[k] == as_map(slots)[k] by {
        let o = choose|o: int| holds_at(slots, o, k);
        lemma_slot_is_mapped(slots, o);
        assert(more[o] == slots[o]);
        lemma_slot_is_mapped(more, o);
    }
    assert forall|k: Seq<char>| k != key && #[trigger] as_map(more).contains_key(k) implies as_map(
        slots,
    ).contains_key(k) by {
        let n = choose|n: int| holds_at(more, n, k);
        assert(more[n] == slots[n]);
        assert(holds_at(slots, n, k));
    }
    assert(as_map(more) =~= as_map(slots).insert(key, slot.handle));
}

/// Finds the slot of `id`, if it owns one.
fn position<H>(slots: &Vec<Slot<H>>, id: &IndexId) -> (at: Option<usize>)
    ensures
        match at {
            Some(i) => holds_at(slots@, i as int, id@),
            None => !as_map(slots@).contains_key(id@),
        },
{
    let mut i: usize = 0;
    while i < slots.len()
        invariant
            i <= slots@.len(),
            forall|k: int| 0 <= k < i ==> slots@[k].id@ != id@,
        decreases slots@.len() - i,
    {
        if slots[i].id == *id {
            return Some(i);
        }
        i += 1;
    }
    assert(forall|k: int| !holds_at(slots@, k, id@));
    None
}

/// Takes the slot of `id` out of `slots`, if it owns one.
fn take_slot<H>(slots: &mut Vec<Slot<H>>, id: &IndexId) -> (taken: Option<H>)
    requires
        distinct(old(slots)@),
    ensures
        distinct(final(slots)@),
        as_map(final(slots)@) == as_map(old(slots)@).remove(id@),
        match taken {
            Some(h) => as_map(old(slots)@).contains_key(id@) && h == as_map(old(slots)@)[id@],
            None => !as_map(old(slots)@).contains_key(id@),
        },
{
    match position(slots, id) {
        Some(i) => {
            proof {
                lemma_slot_is_mapped(slots@, i as int);
                lemma_remove_slot(slots@, i as int);
            }
            Some(slots.remove(i).handle)
        },
        None => {
            assert(as_map(slots@) =~= as_map(slots@).remove(id@));
            None
        },
    }
}

/// Handles of running actors, at most one per index identity.
///
/// Seen from outside, a registry is a finite map from identity to handle.
pub struct Registry<H> {
    slots: Vec<Slot<H>>,
}

impl<H> View for Registry<H> {
    type V = Map<Seq<char>, H>;

    closed spec fn view(&self) -> Map<Seq<char>, H> {
        as_map(self.slots@)
    }
}

impl<H> Registry<H> {
    #[verifier::type_invariant]
    closed spec fn well_formed(&self) -> bool {
        distinct(self.slots@)
    }

    /// An empty registry.
    pub fn new() -> (r: Registry<H>)
        ensures
            r@ == Map::<Seq<char>, H>::empty(),
    {
        let r = Registry { slots: Vec::new() };
        assert(r@ =~= Map::<Seq<char>, H>::empty());
        r
    }

    /// Whether `id` is registered.
    pub fn contains(&self, id: &IndexId) -> (r: bool)
        ensures
            r == self@.contains_key(id@),
    {
        position(&self.slots, id).is_some()
    }

    /// The handle registered for `id`, if there is one.
    pub fn get(&self, id: &IndexId) -> (r: Option<&H>)
        ensures
            match r {
                Some(h) => self@.contains_key(id@) && *h == self@[id@],
                None => !self@.contains_key(id@),
            },
    {
        proof {
            use_type_invariant(self);
        }
        match position(&self.slots, id) {
            Some(i) => {
                proof {
                    lemma_slot_is_mapped(self.slots@, i as int);
                }
                Some(&self.slots[i].handle)
            },
            None => None,
        }
    }

    /// Registers `handle` for `id` and returns the handle that `id` had
    /// before, if it had one.
    pub fn insert(&mut self, id: IndexId, handle: H) -> (previous: Option<H>)
        ensures
            final(self)@ == old(self)@.insert(id@, handle),
            match previous {
                Some(h) => old(self)@.contains_key(id@) && h == old(self)@[id@],
                None => !old(self)@.contains_key(id@),
            },
    {
        proof {
            use_type_invariant(&*self);
        }
        let mut slots: Vec<Slot<H>> = Vec::new();
        core::mem::swap(&mut self.slots, &mut slots);
        let previous = take_slot(&mut slots, &id);
        let slot = Slot { id, handle };
        proof {
            lemma_push_slot(slots@, slot);
            assert(as_map(slots@).insert(slot.id@, slot.handle) =~= old(self)@.insert(
                slot.id@,
                slot.handle,
            ));
        }
        slots.push(slot);
        core::mem::swap(&mut self.slots, &mut slots);
        previous
    }

    /// Takes `id` out of the registry and returns the handle it had, if it
    /// had one.
    pub fn remove(&mut self, id: &IndexId) -> (removed: Option<H>)
        ensures
            final(self)@ == old(self)@.remove(id@),
            match removed {
                Some(h) => old(self)@.contains_key(id@) && h == old(self)@[id@],
                None => !old(self)@.contains_key(id@),
            },
    {
        proof {
            use_type_invariant(&*self);
        }
        let mut slots: Vec<Slot<H>> = Vec::new();
        core::mem::swap(&mut self.slots, &mut slots);
        let removed = take_slot(&mut slots, id);
        core::mem::swap(&mut self.slots, &mut slots);
        removed
    }

    /// The registered identities, each once, in no particular order.
    pub fn ids(&self) -> (ids: Vec<IndexId>)
        ensures
            names(ids@).no_duplicates(),
            names(ids@).to_set() == self@.dom(),
    {
        let mut ids: Vec<IndexId> = Vec::new();
        let mut i: usize = 0;
        while i < self.slots.len()
            invariant
                i <= self.slots@.len(),
                ids@.len() == i,
                forall|k: int| 0 <= k < i ==> ids@[k]@ == self.slots@[k].id@,
            decreases self.slots@.len() - i,
        {
            ids.push(self.slots[i].id.clone());
            i += 1;
        }
        proof {
            use_type_invariant(self);
            let listed = names(ids@);
            assert forall|k: Seq<char>| listed.to_set().contains(k) implies self@.contains_key(k) by {
                let n = choose|n: int| 0 <= n < listed.len() && listed[n] == k;
                assert(holds_at(self.slots@, n, k));
            }
            assert forall|k: Seq<char>| self@.contains_key(k) implies listed.to_set().contains(k) by {
                let n = choose|n: int| holds_at(self.slots@, n, k);
                assert(listed[n] == k);
            }
            assert(listed.to_set() =~= self@.dom());
        }
        ids
    }
}

} // verus!
