//! The slot table: an owned, indexable collection of lazily-created
//! endpoint slots, sized at two slots per cable pair for the life of the
//! driver instance.

use vstd::prelude::*;

use crate::slot::{PortSlot, SlotModel, spec_fresh_slot};

verus! {

/// The model of one table entry: present once the index has been opened.
pub open spec fn opt_slot_view(s: Option<PortSlot>) -> Option<SlotModel> {
    match s {
        Some(p) => Some(p@),
        None => None,
    }
}

/// Owns every endpoint slot of a driver instance. Slot `i` and slot
/// `i ^ 1` form one cross-wired pair, so the table always has even length.
/// An entry is `None` until the first open of its index; a created slot is
/// never released before the table itself is torn down.
pub struct PortSlotTable {
    slots: Vec<Option<PortSlot>>,
}

impl View for PortSlotTable {
    type V = Seq<Option<SlotModel>>;

    closed spec fn view(&self) -> Seq<Option<SlotModel>> {
        self.slots@.map_values(|s: Option<PortSlot>| opt_slot_view(s))
    }
}

/// The state of slot `i`, treating an entry that was never allocated as a
/// fresh zeroed slot: an unallocated endpoint reports the same registers and
/// counters a just-created one would.
pub open spec fn slot_or_fresh(t: Seq<Option<SlotModel>>, i: int) -> SlotModel {
    match t[i] {
        Some(s) => s,
        None => spec_fresh_slot(),
    }
}

impl PortSlotTable {
    /// A table is well formed when its length is even, so that every index's
    /// peer is also a valid index.
    pub open spec fn wf(&self) -> bool {
        self@.len() % 2 == 0
    }

    /// Creates the table for `pair_count` cable pairs: `2 * pair_count`
    /// entries, none of them allocated yet.
    pub fn new(pair_count: usize) -> (r: PortSlotTable)
        requires
            pair_count <= usize::MAX / 2,
        ensures
            r.wf(),
            r@.len() == 2 * pair_count,
            forall|i: int| 0 <= i < r@.len() ==> r@[i] is None,
    {
        let mut slots: Vec<Option<PortSlot>> = Vec::new();
        let total: usize = 2 * pair_count;
        let mut k: usize = 0;
        while k < total
            invariant
                k <= total,
                slots@.len() == k,
                forall|i: int| 0 <= i < k ==> slots@[i] is None,
            decreases total - k,
        {
            slots.push(None);
            k = k + 1;
        }
        let r = PortSlotTable { slots };
        proof {
            assert(forall|i: int|
                0 <= i < r@.len() ==> r@[i] == opt_slot_view(r.slots@[i]) && r@[i] is None);
        }
        r
    }

    /// The number of endpoint slots the table was created with.
    pub fn len(&self) -> (n: usize)
        ensures
            n == self@.len(),
    {
        self.slots.len()
    }

    /// Whether the slot at `index` has been allocated by an earlier open.
    pub fn is_allocated(&self, index: usize) -> (r: bool)
        requires
            index < self@.len(),
        ensures
            r == (self@[index as int] is Some),
    {
        self.slots[index].is_some()
    }

    /// Non-allocating probe: the slot at `index`, if one was ever created.
    pub fn lookup(&self, index: usize) -> (r: Option<&PortSlot>)
        requires
            index < self@.len(),
        ensures
            match r {
                Some(p) => self@[index as int] == Some(p@),
                None => self@[index as int] is None,
            },
    {
        match &self.slots[index] {
            Some(p) => Some(p),
            None => None,
        }
    }

    /// Replaces the entry at `index`, handing back what was there; the
    /// building block every state transition edits the table through.
    pub(crate) fn swap_slot(&mut self, index: usize, entry: Option<PortSlot>) -> (prev: Option<
        PortSlot,
    >)
        requires
            index < old(self)@.len(),
        ensures
            opt_slot_view(prev) == old(self)@[index as int],
            final(self)@ =~= old(self)@.update(index as int, opt_slot_view(entry)),
            final(self)@.len() == old(self)@.len(),
    {
        let prev = self.slots.remove(index);
        self.slots.insert(index, entry);
        proof {
            assert(self.slots@ =~= old(self).slots@.update(index as int, entry));
            assert(self@ =~= old(self)@.update(index as int, opt_slot_view(entry)));
        }
        prev
    }

    /// Ensures the slot at `index` exists, allocating and zero-initialising
    /// it on the first open of the index.
    pub fn get_or_create(&mut self, index: usize)
        requires
            index < old(self)@.len(),
        ensures
            final(self)@ =~= old(self)@.update(
                index as int,
                Some(slot_or_fresh(old(self)@, index as int)),
            ),
            final(self)@.len() == old(self)@.len(),
            old(self).wf() ==> final(self).wf(),
    {
        if !self.is_allocated(index) {
            self.swap_slot(index, Some(PortSlot::new()));
        }
    }

    /// Releases every slot at driver unload; the table is empty afterwards.
    pub fn teardown(&mut self)
        ensures
            final(self)@.len() == 0,
            final(self).wf(),
    {
        self.slots.clear();
    }
}

} // verus!
