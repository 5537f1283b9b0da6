//! Generational arena for values thrown or rejected by JavaScript, so that an
//! error can carry a small copyable handle across async boundaries.

use vstd::prelude::*;

verus! {

/// Opaque handle to a thrown payload captured inside a specific context.
#[derive(Debug, Clone, Copy, PartialEq, Eq, Structural, Hash)]
pub struct ThrownValueHandle {
    pub(crate) context_id: usize,
    pub(crate) id: u32,
    pub(crate) generation: u32,
}

impl ThrownValueHandle {
    /// A handle of the context that no store ever hands out: generation zero.
    pub(crate) fn dangling(context_id: usize) -> (h: Self)
        ensures
            h.spec_context_id() == context_id,
            h.spec_generation() == 0,
    {
        ThrownValueHandle { context_id, id: 0, generation: 0 }
    }

    /// The id of the context that captured the payload.
    pub closed spec fn spec_context_id(&self) -> usize {
        self.context_id
    }

    /// The slot index of the payload.
    pub closed spec fn spec_id(&self) -> u32 {
        self.id
    }

    /// The generation of the slot at capture time.
    pub closed spec fn spec_generation(&self) -> u32 {
        self.generation
    }
}

pub struct ThrownSlot<V> {
    pub(crate) generation: u32,
    pub(crate) value: Option<V>,
}

/// The store: slots indexed by id, and a stack of free slot ids.
pub struct ThrownValueStore<V> {
    pub(crate) slots: Vec<ThrownSlot<V>>,
    pub(crate) free: Vec<usize>,
}

/// The generation that a reused slot gets: one more, skipping zero on wrap.
pub open spec fn next_generation(g: u32) -> u32 {
    if g == u32::MAX { 1 } else { (g + 1) as u32 }
}

impl<V> ThrownValueStore<V> {
    /// Well-formedness: every slot id fits in `u32`, every slot has a nonzero
    /// generation, the free list names distinct empty slots, and every empty
    /// slot is on the free list.
    pub closed spec fn wf(&self) -> bool {
        &&& self.slots@.len() <= u32::MAX as nat + 1
        &&& forall|i: int| 0 <= i < self.slots@.len() ==> #[trigger] self.slots@[i].generation >= 1
        &&& forall|k: int| 0 <= k < self.free@.len() ==> #[trigger] self.free@[k] < self.slots@.len()
        &&& forall|k: int| 0 <= k < self.free@.len() ==> self.slots@[#[trigger] self.free@[k] as int].value is None
        &&& forall|k: int, l: int| 0 <= k < l < self.free@.len() ==> #[trigger] self.free@[k] != #[trigger] self.free@[l]
        &&& forall|i: int| 0 <= i < self.slots@.len() && (#[trigger] self.slots@[i]).value is None
                ==> self.free@.contains(i as usize)
    }

    /// The abstract contents: for each slot id, its generation and payload.
    pub closed spec fn entry(&self, id: int) -> Option<(u32, Option<V>)> {
        if 0 <= id < self.slots@.len() {
            Some((self.slots@[id].generation, self.slots@[id].value))
        } else {
            None
        }
    }

    /// The number of slots on the free list.
    pub closed spec fn free_count(&self) -> nat {
        self.free@.len()
    }

    /// The number of slots ever allocated.
    pub closed spec fn slot_count(&self) -> nat {
        self.slots@.len()
    }

    /// What `get` gives back for a handle, as a function of the contents.
    pub open spec fn lookup(&self, context_id: usize, handle: ThrownValueHandle) -> Option<V> {
        if handle.spec_context_id() != context_id {
            None
        } else {
            match self.entry(handle.spec_id() as int) {
                Some((g, v)) => if g == handle.spec_generation() { v } else { None },
                None => None,
            }
        }
    }

    pub fn new() -> (r: Self)
        ensures
            r.wf(),
            r.slot_count() == 0,
            r.free_count() == 0,
            forall|id: int| r.entry(id) is None,
    {
        ThrownValueStore { slots: Vec::new(), free: Vec::new() }
    }

    /// Stores a payload and returns a fresh handle for it. Reuses a freed slot
    /// with a bumped generation when there is one.
    pub fn insert(&mut self, context_id: usize, value: V) -> (h: ThrownValueHandle)
        requires
            old(self).wf(),
            old(self).slot_count() <= u32::MAX || old(self).free_count() > 0,
        ensures
            final(self).wf(),
            h.spec_context_id() == context_id,
            final(self).entry(h.spec_id() as int) == Some((h.spec_generation(), Some(value))),
            old(self).entry(h.spec_id() as int) matches Some((g, v))
                ==> v is None && h.spec_generation() == next_generation(g),
            old(self).entry(h.spec_id() as int) is None
                ==> h.spec_generation() == 1 && h.spec_id() == old(self).slot_count(),
            old(self).free_count() > 0 ==> old(self).entry(h.spec_id() as int) is Some
                && final(self).free_count() == old(self).free_count() - 1
                && final(self).slot_count() == old(self).slot_count(),
            old(self).free_count() == 0 ==> h.spec_id() == old(self).slot_count() && h.spec_generation() == 1
                && final(self).slot_count() == old(self).slot_count() + 1 && final(self).free_count() == 0,
            forall|id: int| id != h.spec_id() ==> final(self).entry(id) == old(self).entry(id),
    {
        if self.free.len() > 0 {
            let id = self.free.pop().unwrap();
            let ghost old_free = old(self).free@;
            let old_generation = self.slots[id].generation;
            let generation = if old_generation == u32::MAX { 1 } else { old_generation + 1 };
            self.slots.set(id, ThrownSlot { generation, value: Some(value) });
            proof {
                assert(self.free@ == old_free.drop_last());
                assert(old_free.last() == id);
                assert forall|i: int| 0 <= i < self.slots@.len() && (#[trigger] self.slots@[i]).value is None
                    implies self.free@.contains(i as usize) by {
                    assert(i != id);
                    assert(old(self).slots@[i].value is None);
                    assert(old_free.contains(i as usize));
                    let k = choose|k: int| 0 <= k < old_free.len() && old_free[k] == i as usize;
                    assert(k != old_free.len() - 1);
                    assert(self.free@[k] == i as usize);
                }
            }
            return ThrownValueHandle { context_id, id: id as u32, generation };
        }
        let id = self.slots.len();
        proof {
            assert(self.free@.len() == 0);
        }
        self.slots.push(ThrownSlot { generation: 1, value: Some(value) });
        ThrownValueHandle { context_id, id: id as u32, generation: 1 }
    }

    /// Whether a new slot id still fits in a handle.
    pub fn has_room(&self) -> (r: bool)
        ensures
            r == (self.slot_count() <= u32::MAX || self.free_count() > 0),
    {
        self.slots.len() <= 0xffff_ffff || self.free.len() > 0
    }

    /// Returns the payload for a live handle of this context.
    pub fn get(&self, context_id: usize, handle: ThrownValueHandle) -> (r: Option<&V>)
        requires
            self.wf(),
        ensures
            r matches Some(v) ==> self.lookup(context_id, handle) == Some(*v),
            r is None ==> self.lookup(context_id, handle) is None,
    {
        if handle.context_id != context_id {
            return None;
        }
        let id = handle.id as usize;
        if id >= self.slots.len() {
            return None;
        }
        let slot = &self.slots[id];
        if slot.generation != handle.generation {
            return None;
        }
        slot.value.as_ref()
    }

    /// Removes and returns the payload for a live handle of this context; the
    /// slot goes back on the free list.
    pub fn take(&mut self, context_id: usize, handle: ThrownValueHandle) -> (r: Option<V>)
        requires
            old(self).wf(),
        ensures
            final(self).wf(),
            r == old(self).lookup(context_id, handle),
            r is Some ==> final(self).entry(handle.spec_id() as int)
                == Some((handle.spec_generation(), None::<V>)),
            forall|id: int| id != handle.spec_id() ==> final(self).entry(id) == old(self).entry(id),
            r is None ==> forall|id: int| final(self).entry(id) == old(self).entry(id),
            r is Some ==> final(self).free_count() == old(self).free_count() + 1,
            r is None ==> final(self).free_count() == old(self).free_count(),
            final(self).slot_count() == old(self).slot_count(),
    {
        if handle.context_id != context_id {
            return None;
        }
        let id = handle.id as usize;
        if id >= self.slots.len() {
            return None;
        }
        if self.slots[id].generation != handle.generation {
            return None;
        }
        if self.slots[id].value.is_none() {
            return None;
        }
        let ghost old_free = self.free@;
        let value = self.slots[id].value.take();
        proof {
            assert(!old_free.contains(id)) by {
                if old_free.contains(id) {
                    let k = choose|k: int| 0 <= k < old_free.len() && old_free[k] == id;
                    assert(old(self).slots@[old_free[k] as int].value is None);
                }
            }
        }
        self.free.push(id);
        proof {
            assert(self.free@ == old_free.push(id));
            assert forall|k: int, l: int| 0 <= k < l < self.free@.len()
                implies #[trigger] self.free@[k] != #[trigger] self.free@[l] by {
                if l == old_free.len() {
                    assert(old_free.contains(old_free[k]));
                }
            }
            assert forall|k: int| 0 <= k < self.free@.len()
                implies self.slots@[#[trigger] self.free@[k] as int].value is None by {
                if k < old_free.len() {
                    assert(old(self).slots@[old_free[k] as int].value is None);
                }
            }
            assert forall|i: int| 0 <= i < self.slots@.len() && (#[trigger] self.slots@[i]).value is None
                implies self.free@.contains(i as usize) by {
                if i != id {
                    assert(old(self).slots@[i].value is None);
                    let k = choose|k: int| 0 <= k < old_free.len() && old_free[k] == i as usize;
                    assert(self.free@[k] == i as usize);
                } else {
                    assert(self.free@[old_free.len() as int] == id);
                }
            }
        }
        value
    }
}

/// A handle resolves only in the context that captured its payload.
pub proof fn law_foreign_context_never_resolves<V>(store: ThrownValueStore<V>, context_id: usize,
    handle: ThrownValueHandle)
    requires
        handle.spec_context_id() != context_id,
    ensures
        store.lookup(context_id, handle) is None,
{
}

/// Read after write: the handle an insert returns resolves to the inserted
/// payload, and every handle of another slot resolves as before.
pub proof fn law_insert_then_lookup<V>(before: ThrownValueStore<V>, after: ThrownValueStore<V>, context_id: usize,
    value: V, handle: ThrownValueHandle, other: ThrownValueHandle)
    requires
        handle.spec_context_id() == context_id,
        after.entry(handle.spec_id() as int) == Some((handle.spec_generation(), Some(value))),
        forall|id: int| id != handle.spec_id() ==> after.entry(id) == before.entry(id),
        other.spec_id() != handle.spec_id(),
    ensures
        after.lookup(context_id, handle) == Some(value),
        after.lookup(context_id, other) == before.lookup(context_id, other),
{
    assert(after.entry(other.spec_id() as int) == before.entry(other.spec_id() as int));
}

/// A payload is taken at most once: after a take, its handle resolves to nothing.
pub proof fn law_take_once<V>(after: ThrownValueStore<V>, context_id: usize, handle: ThrownValueHandle)
    requires
        after.entry(handle.spec_id() as int) == Some((handle.spec_generation(), None::<V>)),
    ensures
        after.lookup(context_id, handle) is None,
{
}

/// A slot reused by a later insert gets a new generation, so a handle of its
/// earlier payload never resolves to the new one.
pub proof fn law_reused_slot_rejects_old_handle<V>(before: ThrownValueStore<V>, after: ThrownValueStore<V>,
    context_id: usize, old_handle: ThrownValueHandle, new_handle: ThrownValueHandle, value: V)
    requires
        before.entry(old_handle.spec_id() as int) == Some((old_handle.spec_generation(), None::<V>)),
        old_handle.spec_generation() >= 1,
        new_handle.spec_id() == old_handle.spec_id(),
        new_handle.spec_generation() == next_generation(old_handle.spec_generation()),
        after.entry(new_handle.spec_id() as int) == Some((new_handle.spec_generation(), Some(value))),
    ensures
        after.lookup(context_id, old_handle) is None,
        new_handle.spec_generation() != old_handle.spec_generation(),
{
}

} // verus!
