use eggo::inventory::{slot_count_to_show, Inventory, InventorySlot, HOTBAR_SIZE, INVENTORY_SIZE};
use eggo::items::ItemId;

fn slot(item_id: ItemId, quantity: u32) -> Option<InventorySlot> {
    Some(InventorySlot { item_id, quantity })
}

#[test]
fn default_inventory_is_empty() {
    let inv = Inventory::default();
    assert_eq!(inv.slots.len(), INVENTORY_SIZE);
    assert!(inv.slots.iter().all(|s| s.is_none()));
}

#[test]
fn add_to_empty_inventory_uses_first_slot() {
    let mut inv = Inventory::default();
    assert!(inv.try_add(ItemId::RustyKnife, 1));
    assert_eq!(inv.slots[0], slot(ItemId::RustyKnife, 1));
    assert_eq!(inv.slots[1], None);
}

#[test]
fn add_stacks_onto_existing_stack_with_room() {
    let mut inv = Inventory::default();
    inv.slots[2] = slot(ItemId::HealthPotion, 4);
    assert!(inv.try_add(ItemId::HealthPotion, 3));
    assert_eq!(inv.slots[2], slot(ItemId::HealthPotion, 7));
    assert_eq!(inv.slots[0], None);
}

#[test]
fn add_overflowing_stack_fills_it_and_uses_empty_slot_for_whole_quantity() {
    let mut inv = Inventory::default();
    inv.slots[0] = slot(ItemId::HealthPotion, 8);
    assert!(inv.try_add(ItemId::HealthPotion, 5));
    assert_eq!(inv.slots[0], slot(ItemId::HealthPotion, 10));
    assert_eq!(inv.slots[1], slot(ItemId::HealthPotion, 5));
}

#[test]
fn add_fails_when_full_but_keeps_partial_fills() {
    let mut inv = Inventory::default();
    for i in 0..INVENTORY_SIZE {
        inv.slots[i] = slot(ItemId::WoodenStick, 1);
    }
    inv.slots[3] = slot(ItemId::Mushroom, 9);
    assert!(!inv.try_add(ItemId::Mushroom, 4));
    assert_eq!(inv.slots[3], slot(ItemId::Mushroom, 10));
    assert_eq!(inv.slots[0], slot(ItemId::WoodenStick, 1));
}

#[test]
fn weapons_do_not_stack() {
    let mut inv = Inventory::default();
    assert!(inv.try_add(ItemId::Sword, 1));
    assert!(inv.try_add(ItemId::Sword, 1));
    assert_eq!(inv.slots[0], slot(ItemId::Sword, 1));
    assert_eq!(inv.slots[1], slot(ItemId::Sword, 1));
}

#[test]
fn add_skips_other_kinds_and_full_stacks() {
    let mut inv = Inventory::default();
    inv.slots[0] = slot(ItemId::Mushroom, 10);
    inv.slots[1] = slot(ItemId::HealthPotion, 2);
    inv.slots[2] = slot(ItemId::Mushroom, 1);
    assert!(inv.try_add(ItemId::Mushroom, 2));
    assert_eq!(inv.slots[0], slot(ItemId::Mushroom, 10));
    assert_eq!(inv.slots[1], slot(ItemId::HealthPotion, 2));
    assert_eq!(inv.slots[2], slot(ItemId::Mushroom, 3));
    assert_eq!(inv.slots[3], None);
}

#[test]
fn remove_takes_part_of_a_stack() {
    let mut inv = Inventory::default();
    inv.slots[4] = slot(ItemId::HealthPotion, 5);
    assert_eq!(inv.remove(4, 2), Some((ItemId::HealthPotion, 2)));
    assert_eq!(inv.slots[4], slot(ItemId::HealthPotion, 3));
}

#[test]
fn remove_more_than_held_empties_slot() {
    let mut inv = Inventory::default();
    inv.slots[1] = slot(ItemId::Mushroom, 2);
    assert_eq!(inv.remove(1, 7), Some((ItemId::Mushroom, 2)));
    assert_eq!(inv.slots[1], None);
}

#[test]
fn remove_from_empty_slot_gives_nothing() {
    let mut inv = Inventory::default();
    assert_eq!(inv.remove(6, 1), None);
    assert!(inv.slots.iter().all(|s| s.is_none()));
}

#[test]
fn add_then_remove_gives_back_what_was_added() {
    let mut inv = Inventory::default();
    assert!(inv.try_add(ItemId::HealthPotion, 6));
    assert_eq!(inv.remove(0, 6), Some((ItemId::HealthPotion, 6)));
    assert!(inv.slots.iter().all(|s| s.is_none()));
}

#[test]
fn get_reads_a_slot() {
    let mut inv = Inventory::default();
    inv.slots[7] = slot(ItemId::LeatherArmor, 1);
    assert_eq!(inv.get(7), Some(&InventorySlot { item_id: ItemId::LeatherArmor, quantity: 1 }));
    assert_eq!(inv.get(6), None);
}

#[test]
fn hotbar_is_first_five_slots() {
    let mut inv = Inventory::default();
    inv.slots[4] = slot(ItemId::Fist, 1);
    inv.slots[5] = slot(ItemId::Sword, 1);
    let hotbar = inv.hotbar_slots();
    assert_eq!(hotbar.len(), HOTBAR_SIZE);
    assert_eq!(hotbar[4], slot(ItemId::Fist, 1));
}

#[test]
fn swap_exchanges_and_twice_restores() {
    let mut inv = Inventory::default();
    inv.slots[0] = slot(ItemId::Sword, 1);
    inv.slots[9] = slot(ItemId::Mushroom, 4);
    inv.swap(0, 9);
    assert_eq!(inv.slots[0], slot(ItemId::Mushroom, 4));
    assert_eq!(inv.slots[9], slot(ItemId::Sword, 1));
    inv.swap(0, 9);
    assert_eq!(inv.slots[0], slot(ItemId::Sword, 1));
    assert_eq!(inv.slots[9], slot(ItemId::Mushroom, 4));
    inv.swap(3, 3);
    assert_eq!(inv.slots[3], None);
}

#[test]
fn counts_shown_only_for_stacks() {
    let one = InventorySlot { item_id: ItemId::Sword, quantity: 1 };
    let many = InventorySlot { item_id: ItemId::Mushroom, quantity: 7 };
    assert_eq!(slot_count_to_show(Some(&one)), None);
    assert_eq!(slot_count_to_show(Some(&many)), Some(7));
    assert_eq!(slot_count_to_show(None), None);
}
