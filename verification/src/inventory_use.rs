use vstd::prelude::*;

use crate::inventory::{slot_after_remove, Inventory, InventorySlot, HOTBAR_SIZE, INVENTORY_SIZE};
use crate::items::{
    consumable_effect_of, has_weapon_stats, is_weapon_item, item_category, item_definition,
    ConsumableEffect, ItemCategory, ItemId,
};

verus! {

broadcast use vstd::array::group_array_axioms;

/// Health at which the player is at full health; healing never goes above it.
pub const MAX_HEALTH: i32 = 10;

/// Which hotbar slot is selected for weapons (`None` means fists).
pub struct SelectedHotbarSlot(pub Option<usize>);

impl Default for SelectedHotbarSlot {
    fn default() -> (r: Self)
        ensures
            r.0 == Some(0usize),
    {
        SelectedHotbarSlot(Some(0))
    }
}

/// The weapon item currently wielded by the player.
pub struct EquippedWeaponId(pub ItemId);

/// The player's health after using an item of kind `id`, or `None` when using it has
/// no effect (it is not a consumable, or the player is already at full health).
pub open spec fn heal_result(health: i32, id: ItemId) -> Option<i32> {
    match consumable_effect_of(id) {
        Some(ConsumableEffect::Heal(amount)) => if health >= MAX_HEALTH {
            None
        } else if health + amount <= MAX_HEALTH {
            Some((health + amount) as i32)
        } else {
            Some(MAX_HEALTH)
        },
        None => None,
    }
}

/// Uses a consumable of kind `item_id` on `health`; returns whether it was consumed.
pub fn use_consumable(item_id: ItemId, health: &mut i32) -> (r: bool)
    ensures
        r == heal_result(*old(health), item_id) is Some,
        *final(health) == match heal_result(*old(health), item_id) {
            Some(h) => h,
            None => *old(health),
        },
{
    let item = item_definition(item_id);
    match item.consumable_effect {
        Some(ConsumableEffect::Heal(amount)) => {
            if *health >= MAX_HEALTH {
                return false;  // Already at full HP
            }
            *health = (*health + amount).min(MAX_HEALTH);
            true
        },
        None => false,
    }
}

/// The hotbar selection after the weapon in hotbar slot `index` is picked: picking the
/// selected slot again deselects it (back to fists).
pub open spec fn toggled_selection(selected: Option<usize>, index: usize) -> Option<usize> {
    if selected == Some(index) {
        None
    } else {
        Some(index)
    }
}

/// Effect of pressing the hotbar key of slot `slot_index`: a consumable there is used
/// (and one taken from the slot if it had an effect), a weapon there is selected or
/// deselected, and anything else does nothing.
pub fn use_hotbar_key(
    inventory: &mut Inventory,
    selected: &mut SelectedHotbarSlot,
    health: &mut i32,
    slot_index: usize,
)
    requires
        slot_index < HOTBAR_SIZE,
    ensures
        match old(inventory).slots@[slot_index as int] {
            None => {
                &&& final(inventory).slots@ == old(inventory).slots@
                &&& final(selected).0 == old(selected).0
                &&& *final(health) == *old(health)
            },
            Some(s) => match item_category(s.item_id) {
                ItemCategory::Consumable => {
                    &&& final(selected).0 == old(selected).0
                    &&& match heal_result(*old(health), s.item_id) {
                        Some(h) => {
                            &&& *final(health) == h
                            &&& final(inventory).slots@ == old(inventory).slots@.update(
                                slot_index as int,
                                slot_after_remove(Some(s), 1),
                            )
                        },
                        None => {
                            &&& *final(health) == *old(health)
                            &&& final(inventory).slots@ == old(inventory).slots@
                        },
                    }
                },
                ItemCategory::Weapon => {
                    &&& final(selected).0 == toggled_selection(old(selected).0, slot_index)
                    &&& final(inventory).slots@ == old(inventory).slots@
                    &&& *final(health) == *old(health)
                },
                ItemCategory::Armor => {
                    &&& final(inventory).slots@ == old(inventory).slots@
                    &&& final(selected).0 == old(selected).0
                    &&& *final(health) == *old(health)
                },
            },
        },
{
    if let Some(slot) = inventory.get(slot_index) {
        let item_id = slot.item_id;
        let item = item_definition(item_id);
        match item.category {
            ItemCategory::Consumable => {
                if use_consumable(item_id, health) {
                    inventory.remove(slot_index, 1);
                }
            },
            ItemCategory::Weapon => {
                // Toggle selection: if already selected, deselect (use fists)
                if selected.0 == Some(slot_index) {
                    selected.0 = None;
                } else {
                    selected.0 = Some(slot_index);
                }
            },
            _ => {},
        }
    }
}

/// Effect of using inventory slot `slot_index` from the open inventory panel: a
/// consumable there is used (and one taken from the slot if it had an effect); a weapon
/// there is equipped and the previously equipped weapon takes its place in the slot.
/// Returns whether the equipped weapon changed.
pub fn use_inventory_slot(
    inventory: &mut Inventory,
    equipped: &mut EquippedWeaponId,
    health: &mut i32,
    slot_index: usize,
) -> (r: bool)
    requires
        slot_index < INVENTORY_SIZE,
    ensures
        match old(inventory).slots@[slot_index as int] {
            None => {
                &&& !r
                &&& final(inventory).slots@ == old(inventory).slots@
                &&& final(equipped).0 == old(equipped).0
                &&& *final(health) == *old(health)
            },
            Some(s) => match item_category(s.item_id) {
                ItemCategory::Consumable => {
                    &&& !r
                    &&& final(equipped).0 == old(equipped).0
                    &&& match heal_result(*old(health), s.item_id) {
                        Some(h) => {
                            &&& *final(health) == h
                            &&& final(inventory).slots@ == old(inventory).slots@.update(
                                slot_index as int,
                                slot_after_remove(Some(s), 1),
                            )
                        },
                        None => {
                            &&& *final(health) == *old(health)
                            &&& final(inventory).slots@ == old(inventory).slots@
                        },
                    }
                },
                ItemCategory::Weapon => {
                    &&& r == is_weapon_item(s.item_id)
                    &&& *final(health) == *old(health)
                    &&& if is_weapon_item(s.item_id) {
                        &&& final(equipped).0 == s.item_id
                        &&& final(inventory).slots@ == old(inventory).slots@.update(
                            slot_index as int,
                            Some(InventorySlot { item_id: old(equipped).0, quantity: 1 }),
                        )
                    } else {
                        &&& final(equipped).0 == old(equipped).0
                        &&& final(inventory).slots@ == old(inventory).slots@
                    }
                },
                ItemCategory::Armor => {
                    &&& !r
                    &&& final(inventory).slots@ == old(inventory).slots@
                    &&& final(equipped).0 == old(equipped).0
                    &&& *final(health) == *old(health)
                },
            },
        },
{
    if let Some(slot) = inventory.get(slot_index) {
        let item_id = slot.item_id;
        let item = item_definition(item_id);
        match item.category {
            ItemCategory::Consumable => {
                if use_consumable(item_id, health) {
                    inventory.remove(slot_index, 1);
                }
                false
            },
            ItemCategory::Weapon => {
                // Equip weapon: swap with currently equipped
                if has_weapon_stats(item_id) {
                    let old_weapon_id = equipped.0;
                    equipped.0 = item_id;
                    // Put old weapon in inventory slot
                    inventory.slots[slot_index] = Some(InventorySlot { item_id: old_weapon_id, quantity: 1 });
                    true
                } else {
                    false
                }
            },
            _ => false,
        }
    } else {
        false
    }
}

/// The weapon to wield for a hotbar selection, or `None` when the weapon should stay
/// as it is (the selected slot is empty or holds no weapon).
pub open spec fn selected_weapon_spec(slots: Seq<Option<InventorySlot>>, selected: Option<usize>) -> Option<ItemId> {
    match selected {
        Some(i) => match slots[i as int] {
            Some(s) => if is_weapon_item(s.item_id) {
                Some(s.item_id)
            } else {
                None
            },
            None => None,
        },
        None => Some(ItemId::Fist),
    }
}

/// Syncs the wielded weapon with the hotbar selection: the weapon in the selected slot,
/// or fists when nothing is selected.
pub fn sync_selected_weapon(inventory: &Inventory, selected: &SelectedHotbarSlot) -> (r: Option<ItemId>)
    requires
        selected.0 matches Some(i) ==> i < INVENTORY_SIZE,
    ensures
        r == selected_weapon_spec(inventory.slots@, selected.0),
{
    match selected.0 {
        Some(slot_index) => {
            // Get weapon from selected slot
            if let Some(slot) = inventory.get(slot_index) {
                if has_weapon_stats(slot.item_id) {
                    return Some(slot.item_id);
                }
            }
            None
        },
        None => {
            // Use fists
            if has_weapon_stats(ItemId::Fist) {
                Some(ItemId::Fist)
            } else {
                None
            }
        },
    }
}

/// Healing never takes health above full, never lowers it, and is refused at full health.
pub proof fn lemma_heal_bounds(health: i32, id: ItemId)
    ensures
        heal_result(health, id) matches Some(h) ==> health < h <= MAX_HEALTH,
        health >= MAX_HEALTH ==> heal_result(health, id) is None,
{
}

/// Picking a hotbar weapon toggles it: the slot ends selected exactly when it was not
/// selected before, and the selection never names another slot afterwards.
pub proof fn lemma_toggle_selects_iff_unselected(selected: Option<usize>, index: usize)
    ensures
        (toggled_selection(selected, index) == Some(index)) <==> (selected != Some(index)),
        toggled_selection(selected, index) is None || toggled_selection(selected, index) == Some(index),
{
}

} // verus!
