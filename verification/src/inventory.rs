use vstd::prelude::*;

use crate::items::{get_item_data, item_category, lemma_only_consumables_stack, stack_max_of, ItemCategory, ItemId};

verus! {

broadcast use vstd::array::group_array_axioms;

pub const INVENTORY_SIZE: usize = 10;

pub const HOTBAR_SIZE: usize = 5;

/// A stack of items of one kind held in an inventory slot.
#[derive(Debug, Clone, Copy, PartialEq, Eq, Structural)]
pub struct InventorySlot {
    pub item_id: ItemId,
    pub quantity: u32,
}

/// The player's inventory: a fixed row of slots, the first `HOTBAR_SIZE` of which form the hotbar.
pub struct Inventory {
    pub slots: [Option<InventorySlot>; INVENTORY_SIZE],
}

/// An item stack lying on the ground, waiting to be picked up.
pub struct GroundItem {
    pub item_id: ItemId,
    pub quantity: u32,
}

/// The count a slot's UI shows: only stacks of more than one item show their quantity.
pub fn slot_count_to_show(slot: Option<&InventorySlot>) -> (r: Option<u32>)
    ensures
        r == (match slot {
            Some(s) => if s.quantity > 1 { Some(s.quantity) } else { None },
            None => None,
        }),
{
    match slot {
        Some(s) => if s.quantity > 1 {
            Some(s.quantity)
        } else {
            None
        },
        None => None,
    }
}

/// A slot holding a stack of `id` that still has room below its stack size.
pub open spec fn has_room_for_kind(s: Option<InventorySlot>, id: ItemId) -> bool {
    s matches Some(x) && x.item_id == id && x.quantity < stack_max_of(id)
}

/// A slot holding a stack of `id` with room for all `quantity` more items.
pub open spec fn fits_all(s: Option<InventorySlot>, id: ItemId, quantity: u32) -> bool {
    has_room_for_kind(s, id) && stack_max_of(id) - s->0.quantity >= quantity
}

/// The slot after being filled up to its stack size, if it holds a non-full stack of `id`.
pub open spec fn topped_up(s: Option<InventorySlot>, id: ItemId) -> Option<InventorySlot> {
    if has_room_for_kind(s, id) {
        Some(InventorySlot { item_id: id, quantity: stack_max_of(id) })
    } else {
        s
    }
}

/// `k` is the first slot that has room for all `quantity` items of `id`.
pub open spec fn is_first_fit(slots: Seq<Option<InventorySlot>>, id: ItemId, quantity: u32, k: int) -> bool {
    &&& 0 <= k < slots.len()
    &&& fits_all(slots[k], id, quantity)
    &&& forall|j: int| 0 <= j < k ==> !fits_all(#[trigger] slots[j], id, quantity)
}

/// `e` is the first empty slot.
pub open spec fn is_first_empty(slots: Seq<Option<InventorySlot>>, e: int) -> bool {
    &&& 0 <= e < slots.len()
    &&& slots[e] is None
    &&& forall|j: int| 0 <= j < e ==> #[trigger] slots[j] is Some
}

/// The slots and the answer after trying to add `quantity` items of `id`.
///
/// Slots are visited in order; every non-full stack of the same kind before the first
/// stack with room for the whole `quantity` is filled up to its stack size (by
/// `quantity` at most), and that first stack takes the whole `quantity`. When no stack
/// has room for all of it, every non-full stack of the kind is filled up, and the whole
/// `quantity` goes into the first empty slot, if there is one; the fills stay even when
/// there is none and the answer is `false`.
pub open spec fn try_add_result(slots: Seq<Option<InventorySlot>>, id: ItemId, quantity: u32) -> (
    Seq<Option<InventorySlot>>,
    bool,
) {
    if exists|k: int| is_first_fit(slots, id, quantity, k) {
        let k = choose|k: int| is_first_fit(slots, id, quantity, k);
        (
            Seq::new(
                slots.len(),
                |i: int|
                    if i < k {
                        topped_up(slots[i], id)
                    } else if i == k {
                        Some(
                            InventorySlot {
                                item_id: id,
                                quantity: (slots[k]->0.quantity + quantity) as u32,
                            },
                        )
                    } else {
                        slots[i]
                    },
            ),
            true,
        )
    } else {
        let filled = Seq::new(slots.len(), |i: int| topped_up(slots[i], id));
        if exists|e: int| is_first_empty(slots, e) {
            let e = choose|e: int| is_first_empty(slots, e);
            (filled.update(e, Some(InventorySlot { item_id: id, quantity })), true)
        } else {
            (filled, false)
        }
    }
}

/// The slot after taking up to `quantity` items out of it (emptied when nothing is left).
pub open spec fn slot_after_remove(s: Option<InventorySlot>, quantity: u32) -> Option<InventorySlot> {
    match s {
        None => None,
        Some(x) => if x.quantity <= quantity {
            None
        } else {
            Some(InventorySlot { item_id: x.item_id, quantity: (x.quantity - quantity) as u32 })
        },
    }
}

/// What taking up to `quantity` items out of a slot hands back: the kind and the amount taken.
pub open spec fn removed_from(s: Option<InventorySlot>, quantity: u32) -> Option<(ItemId, u32)> {
    match s {
        None => None,
        Some(x) => Some((x.item_id, if x.quantity <= quantity { x.quantity } else { quantity })),
    }
}

impl Default for Inventory {
    fn default() -> (r: Self)
        ensures
            forall|i: int| 0 <= i < INVENTORY_SIZE ==> #[trigger] r.slots@[i] is None,
    {
        Inventory { slots: [None, None, None, None, None, None, None, None, None, None] }
    }
}

impl Inventory {
    /// Adds `quantity` items of `item_id`, stacking onto existing stacks first and then
    /// using the first empty slot; returns whether the items were placed.
    pub fn try_add(&mut self, item_id: ItemId, quantity: u32) -> (r: bool)
        ensures
            final(self).slots@ == try_add_result(old(self).slots@, item_id, quantity).0,
            r == try_add_result(old(self).slots@, item_id, quantity).1,
    {
        let data = get_item_data(item_id);
        let stack_max = data.stack_max;
        let ghost old_slots = self.slots@;

        // Try to stack with existing
        let mut i: usize = 0;
        while i < INVENTORY_SIZE
            invariant
                0 <= i <= INVENTORY_SIZE,
                stack_max == stack_max_of(item_id),
                old_slots == old(self).slots@,
                old_slots.len() == INVENTORY_SIZE,
                self.slots@.len() == INVENTORY_SIZE,
                forall|j: int| 0 <= j < i ==> !fits_all(#[trigger] old_slots[j], item_id, quantity),
                forall|j: int| 0 <= j < i ==> #[trigger] self.slots@[j] == topped_up(old_slots[j], item_id),
                forall|j: int| i <= j < INVENTORY_SIZE ==> #[trigger] self.slots@[j] == old_slots[j],
            decreases INVENTORY_SIZE - i,
        {
            if let Some(s) = self.slots[i] {
                if s.item_id == item_id && s.quantity < stack_max {
                    let can_add = (stack_max - s.quantity).min(quantity);
                    self.slots[i] = Some(InventorySlot { item_id, quantity: s.quantity + can_add });
                    if can_add == quantity {
                        proof {
                            let k = i as int;
                            assert(is_first_fit(old_slots, item_id, quantity, k));
                            let c = choose|c: int| is_first_fit(old_slots, item_id, quantity, c);
                            assert(c == k) by {
                                if c < k {
                                    assert(!fits_all(old_slots[c], item_id, quantity));
                                } else if c > k {
                                    assert(!fits_all(old_slots[k], item_id, quantity));
                                }
                            }
                            assert(self.slots@ =~= try_add_result(old_slots, item_id, quantity).0);
                        }
                        return true;
                    }
                }
            }
            i += 1;
        }

        proof {
            assert forall|k: int| !is_first_fit(old_slots, item_id, quantity, k) by {
                if 0 <= k < old_slots.len() {
                    assert(!fits_all(old_slots[k], item_id, quantity));
                }
            }
            assert(self.slots@ =~= Seq::new(old_slots.len(), |i: int| topped_up(old_slots[i], item_id)));
        }
        let ghost filled = self.slots@;

        // Find empty slot
        let mut i: usize = 0;
        while i < INVENTORY_SIZE
            invariant
                0 <= i <= INVENTORY_SIZE,
                old_slots == old(self).slots@,
                old_slots.len() == INVENTORY_SIZE,
                self.slots@ == filled,
                filled == Seq::new(old_slots.len(), |i: int| topped_up(old_slots[i], item_id)),
                forall|j: int| 0 <= j < i ==> #[trigger] old_slots[j] is Some,
                !exists|k: int| is_first_fit(old_slots, item_id, quantity, k),
            decreases INVENTORY_SIZE - i,
        {
            assert(self.slots@[i as int] is None <==> old_slots[i as int] is None);
            if self.slots[i].is_none() {
                self.slots[i] = Some(InventorySlot { item_id, quantity });
                proof {
                    let e = i as int;
                    assert(is_first_empty(old_slots, e));
                    let c = choose|c: int| is_first_empty(old_slots, c);
                    assert(c == e) by {
                        if c < e {
                            assert(old_slots[c] is Some);
                        } else if c > e {
                            assert(old_slots[e] is Some);
                        }
                    }
                }
                return true;
            }
            i += 1;
        }
        proof {
            assert forall|e: int| !is_first_empty(old_slots, e) by {
                if 0 <= e < old_slots.len() {
                    assert(old_slots[e] is Some);
                }
            }
        }
        false
    }

    /// Takes up to `quantity` items out of slot `index`; returns the item kind and the
    /// number taken, or `None` if the slot is empty. A slot left with nothing is emptied.
    pub fn remove(&mut self, index: usize, quantity: u32) -> (r: Option<(ItemId, u32)>)
        requires
            index < INVENTORY_SIZE,
        ensures
            r == removed_from(old(self).slots@[index as int], quantity),
            final(self).slots@ == old(self).slots@.update(
                index as int,
                slot_after_remove(old(self).slots@[index as int], quantity),
            ),
    {
        if let Some(slot) = self.slots[index] {
            let removed = slot.quantity.min(quantity);
            let remaining = slot.quantity - removed;
            let id = slot.item_id;
            if remaining == 0 {
                self.slots[index] = None;
            } else {
                self.slots[index] = Some(InventorySlot { item_id: id, quantity: remaining });
            }
            return Some((id, removed));
        }
        None
    }

    /// The contents of slot `index`.
    pub fn get(&self, index: usize) -> (r: Option<&InventorySlot>)
        requires
            index < INVENTORY_SIZE,
        ensures
            r is Some <==> self.slots@[index as int] is Some,
            r is Some ==> *(r->0) == self.slots@[index as int]->0,
    {
        self.slots[index].as_ref()
    }

    /// The slots that form the hotbar.
    pub fn hotbar_slots(&self) -> (r: &[Option<InventorySlot>])
        ensures
            r@ == self.slots@.subrange(0, HOTBAR_SIZE as int),
    {
        &self.slots[0..HOTBAR_SIZE]
    }

    /// Exchanges the contents of slots `a` and `b`.
    pub fn swap(&mut self, a: usize, b: usize)
        requires
            a < INVENTORY_SIZE,
            b < INVENTORY_SIZE,
        ensures
            final(self).slots@ == old(self).slots@.update(a as int, old(self).slots@[b as int]).update(
                b as int,
                old(self).slots@[a as int],
            ),
    {
        let slot_a = self.slots[a];
        let slot_b = self.slots[b];
        self.slots[a] = slot_b;
        self.slots[b] = slot_a;
    }
}

/// Swapping the same two slots twice gives back the original slots.
pub proof fn lemma_swap_twice_restores(slots: Seq<Option<InventorySlot>>, a: int, b: int)
    requires
        0 <= a < slots.len(),
        0 <= b < slots.len(),
    ensures
        ({
            let once = slots.update(a, slots[b]).update(b, slots[a]);
            once.update(a, once[b]).update(b, once[a])
        }) == slots,
{
    let once = slots.update(a, slots[b]).update(b, slots[a]);
    assert(once.update(a, once[b]).update(b, once[a]) =~= slots);
}

/// Adding items never changes the number of slots, never touches a slot holding another
/// kind of item, and never takes items away: every occupied slot keeps its kind and at
/// least its quantity.
pub proof fn lemma_try_add_keeps_other_items(slots: Seq<Option<InventorySlot>>, id: ItemId, quantity: u32, i: int)
    requires
        0 <= i < slots.len(),
    ensures
        try_add_result(slots, id, quantity).0.len() == slots.len(),
        slots[i] matches Some(x) ==> {
            let y = try_add_result(slots, id, quantity).0[i];
            &&& y is Some
            &&& y->0.item_id == x.item_id
            &&& y->0.quantity >= x.quantity
            &&& x.item_id != id ==> y == slots[i]
        },
{
    if exists|k: int| is_first_fit(slots, id, quantity, k) {
    } else {
        if exists|e: int| is_first_empty(slots, e) {
            let e = choose|e: int| is_first_empty(slots, e);
            assert(slots[e] is None);
        }
    }
}

/// Adding items fails only when every slot is occupied and no stack of the kind has room
/// for all of them.
pub proof fn lemma_try_add_fails_only_when_full(slots: Seq<Option<InventorySlot>>, id: ItemId, quantity: u32)
    ensures
        !try_add_result(slots, id, quantity).1 ==> {
            &&& forall|i: int| 0 <= i < slots.len() ==> #[trigger] slots[i] is Some
            &&& forall|i: int| 0 <= i < slots.len() ==> !fits_all(#[trigger] slots[i], id, quantity)
        },
{
    if !try_add_result(slots, id, quantity).1 {
        assert forall|i: int| 0 <= i < slots.len() implies #[trigger] slots[i] is Some by {
            if slots[i] is None {
                lemma_first_none_exists(slots, i);
            }
        }
        assert forall|i: int| 0 <= i < slots.len() implies !fits_all(#[trigger] slots[i], id, quantity) by {
            if fits_all(slots[i], id, quantity) {
                lemma_first_fit_exists(slots, id, quantity, i);
            }
        }
    }
}

/// If some slot is empty, there is a first empty slot.
proof fn lemma_first_none_exists(slots: Seq<Option<InventorySlot>>, i: int)
    requires
        0 <= i < slots.len(),
        slots[i] is None,
    ensures
        exists|e: int| is_first_empty(slots, e),
    decreases i,
{
    if forall|j: int| 0 <= j < i ==> #[trigger] slots[j] is Some {
        assert(is_first_empty(slots, i));
    } else {
        let j = choose|j: int| 0 <= j < i && !(#[trigger] slots[j] is Some);
        lemma_first_none_exists(slots, j);
    }
}

/// If some slot has room for all the items, there is a first such slot.
proof fn lemma_first_fit_exists(slots: Seq<Option<InventorySlot>>, id: ItemId, quantity: u32, i: int)
    requires
        0 <= i < slots.len(),
        fits_all(slots[i], id, quantity),
    ensures
        exists|k: int| is_first_fit(slots, id, quantity, k),
    decreases i,
{
    if forall|j: int| 0 <= j < i ==> !fits_all(#[trigger] slots[j], id, quantity) {
        assert(is_first_fit(slots, id, quantity, i));
    } else {
        let j = choose|j: int| 0 <= j < i && fits_all(#[trigger] slots[j], id, quantity);
        lemma_first_fit_exists(slots, id, quantity, j);
    }
}

/// Items added to an empty inventory go, all of them, into the first slot.
pub proof fn lemma_try_add_into_empty(slots: Seq<Option<InventorySlot>>, id: ItemId, quantity: u32)
    requires
        slots.len() > 0,
        forall|i: int| 0 <= i < slots.len() ==> #[trigger] slots[i] is None,
    ensures
        try_add_result(slots, id, quantity).1,
        try_add_result(slots, id, quantity).0 == slots.update(0, Some(InventorySlot { item_id: id, quantity })),
{
    assert forall|k: int| !is_first_fit(slots, id, quantity, k) by {
        if 0 <= k < slots.len() {
            assert(slots[k] is None);
        }
    }
    assert(is_first_empty(slots, 0));
    let e = choose|e: int| is_first_empty(slots, e);
    assert(e == 0) by {
        if e > 0 {
            assert(slots[0] is None);
        }
    }
    assert(try_add_result(slots, id, quantity).0 =~= slots.update(0, Some(InventorySlot { item_id: id, quantity })));
}

/// Removing hands back at most what was asked for and at most what the slot held, and
/// what it hands back plus what stays in the slot is what the slot held.
pub proof fn lemma_remove_accounts_for_items(s: Option<InventorySlot>, quantity: u32)
    ensures
        removed_from(s, quantity) is Some <==> s is Some,
        removed_from(s, quantity) matches Some((id, n)) ==> {
            &&& id == s->0.item_id
            &&& n <= quantity
            &&& n <= s->0.quantity
            &&& n + (match slot_after_remove(s, quantity) {
                Some(rest) => rest.quantity as int,
                None => 0int,
            }) == s->0.quantity
            &&& slot_after_remove(s, quantity) matches Some(rest) ==> rest.item_id == id
        },
{
}

/// Weapons and armor never stack: adding one to an inventory whose stacks all hold at
/// least one item leaves every occupied slot as it was, so the new item can only land in
/// an empty slot.
pub proof fn lemma_unstackable_items_never_stack(slots: Seq<Option<InventorySlot>>, id: ItemId, quantity: u32)
    requires
        item_category(id) != ItemCategory::Consumable,
        forall|i: int| 0 <= i < slots.len() ==> (#[trigger] slots[i] matches Some(x) ==> x.quantity >= 1),
    ensures
        forall|i: int|
            0 <= i < slots.len() && #[trigger] slots[i] is Some ==> try_add_result(slots, id, quantity).0[i]
                == slots[i],
{
    lemma_only_consumables_stack(id);
    assert forall|k: int| !is_first_fit(slots, id, quantity, k) by {
        if 0 <= k < slots.len() {
            assert(!has_room_for_kind(slots[k], id));
        }
    }
    assert forall|i: int| 0 <= i < slots.len() && #[trigger] slots[i] is Some implies try_add_result(
        slots,
        id,
        quantity,
    ).0[i] == slots[i] by {
        assert(!has_room_for_kind(slots[i], id));
        if exists|e: int| is_first_empty(slots, e) {
            let e = choose|e: int| is_first_empty(slots, e);
            assert(e != i);
        }
    }
}

} // verus!
