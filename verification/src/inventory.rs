//! The item slots: filling them, emptying them, selecting one.

use vstd::prelude::*;
use crate::components::{ItemSlot, ItemType};
use crate::constants::ITEM_SLOT_COUNT;
use crate::resources::SelectedItemSlot;

verus! {

/// The slots that the item area starts with: one for each index below
/// `ITEM_SLOT_COUNT`, in order, all empty.
pub fn spawn_item_area() -> (slots: Vec<ItemSlot>)
    ensures
        slots.len() == ITEM_SLOT_COUNT,
        forall|i: int|
            0 <= i < slots.len() ==> #[trigger] slots[i] == (ItemSlot {
                slot_index: i as usize,
                item: None,
            }),
{
    let mut slots: Vec<ItemSlot> = Vec::new();
    let mut i: usize = 0;
    while i < ITEM_SLOT_COUNT
        invariant
            i <= ITEM_SLOT_COUNT,
            slots.len() == i,
            forall|j: int|
                0 <= j < i ==> #[trigger] slots[j] == (ItemSlot {
                    slot_index: j as usize,
                    item: None,
                }),
        decreases ITEM_SLOT_COUNT - i,
    {
        slots.push(ItemSlot { slot_index: i, item: None });
        i += 1;
    }
    slots
}

/// The number shown on the slot with this index: one more than the index.
pub fn slot_label(slot_index: usize) -> (label: usize)
    requires
        slot_index < usize::MAX,
    ensures
        label == slot_index + 1,
{
    slot_index + 1
}

/// Position `p` holds the first slot with index `slot_index`.
pub open spec fn is_first_with_index(slots: Seq<ItemSlot>, slot_index: usize, p: int) -> bool {
    &&& 0 <= p < slots.len()
    &&& slots[p].slot_index == slot_index
    &&& forall|j: int| 0 <= j < p ==> (#[trigger] slots[j]).slot_index != slot_index
}

/// No slot has index `slot_index`.
pub open spec fn no_slot_with_index(slots: Seq<ItemSlot>, slot_index: usize) -> bool {
    forall|j: int| 0 <= j < slots.len() ==> (#[trigger] slots[j]).slot_index != slot_index
}

/// The slots after the first one with index `slot_index` was emptied; the
/// same slots where there is none.
pub open spec fn slots_without(slots: Seq<ItemSlot>, slot_index: usize) -> Seq<ItemSlot> {
    if exists|p: int| is_first_with_index(slots, slot_index, p) {
        let p = choose|p: int| is_first_with_index(slots, slot_index, p);
        slots.update(p, ItemSlot { slot_index: slot_index, item: None })
    } else {
        slots
    }
}

/// Only one position can hold the first slot with a given index.
pub proof fn lemma_first_with_index_unique(slots: Seq<ItemSlot>, slot_index: usize, a: int, b: int)
    requires
        is_first_with_index(slots, slot_index, a),
        is_first_with_index(slots, slot_index, b),
    ensures
        a == b,
{
    if a < b {
        assert(slots[a].slot_index == slot_index);
    } else if b < a {
        assert(slots[b].slot_index == slot_index);
    }
}

/// Empties the first slot that has index `slot_index`, and says where it
/// stands. Without such a slot nothing changes.
pub fn clear_slot(slots: &mut Vec<ItemSlot>, slot_index: usize) -> (cleared: Option<usize>)
    ensures
        final(slots)@ == slots_without(old(slots)@, slot_index),
        cleared is None ==> no_slot_with_index(old(slots)@, slot_index),
        cleared matches Some(p) ==> is_first_with_index(old(slots)@, slot_index, p as int),
{
    let mut i: usize = 0;
    while i < slots.len()
        invariant
            i <= slots.len(),
            slots@ == old(slots)@,
            forall|j: int| 0 <= j < i ==> (#[trigger] slots[j]).slot_index != slot_index,
        decreases slots.len() - i,
    {
        if slots[i].slot_index == slot_index {
            proof {
                assert(is_first_with_index(old(slots)@, slot_index, i as int));
                let p = choose|p: int| is_first_with_index(old(slots)@, slot_index, p);
                lemma_first_with_index_unique(old(slots)@, slot_index, p, i as int);
            }
            slots.set(i, ItemSlot { slot_index: slot_index, item: None });
            return Some(i);
        }
        i += 1;
    }
    proof {
        assert forall|p: int| !is_first_with_index(old(slots)@, slot_index, p) by {
            if 0 <= p < slots.len() {
                assert(slots[p].slot_index != slot_index);
            }
        }
    }
    None
}

/// Position `p` holds the empty slot that is filled next: no empty slot has a
/// smaller index, and none before it has the same.
pub open spec fn is_first_free(slots: Seq<ItemSlot>, p: int) -> bool {
    &&& 0 <= p < slots.len()
    &&& slots[p].item is None
    &&& forall|j: int|
        0 <= j < slots.len() && (#[trigger] slots[j]).item is None ==> slots[p].slot_index
            <= slots[j].slot_index
    &&& forall|j: int|
        0 <= j < p && (#[trigger] slots[j]).item is None ==> slots[p].slot_index
            < slots[j].slot_index
}

/// Every slot holds something.
pub open spec fn all_full(slots: Seq<ItemSlot>) -> bool {
    forall|j: int| 0 <= j < slots.len() ==> (#[trigger] slots[j]).item is Some
}

/// Only one position can be the one filled next.
pub proof fn lemma_first_free_unique(slots: Seq<ItemSlot>, a: int, b: int)
    requires
        is_first_free(slots, a),
        is_first_free(slots, b),
    ensures
        a == b,
{
    if a < b {
        assert(slots[a].item is None);
    } else if b < a {
        assert(slots[b].item is None);
    }
}

/// Puts `item` into the empty slot with the smallest index, the earliest one
/// among equals, and says where it stands. With every slot taken nothing
/// changes.
pub fn store_item(slots: &mut Vec<ItemSlot>, item: ItemType) -> (stored: Option<usize>)
    ensures
        stored is None ==> all_full(old(slots)@) && final(slots)@ == old(slots)@,
        stored matches Some(p) ==> is_first_free(old(slots)@, p as int) && final(slots)@ == old(
            slots,
        )@.update(
            p as int,
            ItemSlot { slot_index: old(slots)@[p as int].slot_index, item: Some(item) },
        ),
{
    let mut best: Option<usize> = None;
    let mut i: usize = 0;
    while i < slots.len()
        invariant
            i <= slots.len(),
            slots@ == old(slots)@,
            best is None ==> forall|j: int| 0 <= j < i ==> (#[trigger] slots[j]).item is Some,
            best matches Some(p) ==> {
                &&& p < i
                &&& slots[p as int].item is None
                &&& forall|j: int|
                    0 <= j < i && (#[trigger] slots[j]).item is None ==> slots[p as int].slot_index
                        <= slots[j].slot_index
                &&& forall|j: int|
                    0 <= j < p && (#[trigger] slots[j]).item is None ==> slots[p as int].slot_index
                        < slots[j].slot_index
            },
        decreases slots.len() - i,
    {
        let slot = slots[i];
        if slot.item.is_none() {
            match best {
                Some(p) => {
                    if slot.slot_index < slots[p].slot_index {
                        best = Some(i);
                    }
                },
                None => {
                    best = Some(i);
                },
            }
        }
        i += 1;
    }
    match best {
        Some(p) => {
            let slot_index = slots[p].slot_index;
            slots.set(p, ItemSlot { slot_index: slot_index, item: Some(item) });
            Some(p)
        },
        None => None,
    }
}

impl SelectedItemSlot {
    /// Forgets the selection.
    pub fn clear(&mut self)
        ensures
            *final(self) == Self::nothing(),
    {
        self.slot_index = None;
        self.item_type = None;
    }
}

} // verus!
