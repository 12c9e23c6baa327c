use eggo::inventory::{Inventory, InventorySlot};
use eggo::inventory_use::{
    sync_selected_weapon, use_consumable, use_hotbar_key, use_inventory_slot, EquippedWeaponId,
    SelectedHotbarSlot, MAX_HEALTH,
};
use eggo::items::ItemId;

fn slot(item_id: ItemId, quantity: u32) -> Option<InventorySlot> {
    Some(InventorySlot { item_id, quantity })
}

#[test]
fn potion_heals_up_to_max() {
    let mut health = 3;
    assert!(use_consumable(ItemId::HealthPotion, &mut health));
    assert_eq!(health, 8);
    assert!(use_consumable(ItemId::HealthPotion, &mut health));
    assert_eq!(health, MAX_HEALTH);
}

#[test]
fn mushroom_heals_three() {
    let mut health = 1;
    assert!(use_consumable(ItemId::Mushroom, &mut health));
    assert_eq!(health, 4);
}

#[test]
fn consumable_refused_at_full_health() {
    let mut health = 10;
    assert!(!use_consumable(ItemId::HealthPotion, &mut health));
    assert_eq!(health, 10);
}

#[test]
fn non_consumable_has_no_effect() {
    let mut health = 2;
    assert!(!use_consumable(ItemId::Sword, &mut health));
    assert!(!use_consumable(ItemId::LeatherArmor, &mut health));
    assert_eq!(health, 2);
}

#[test]
fn selected_slot_defaults_to_first() {
    assert_eq!(SelectedHotbarSlot::default().0, Some(0));
}

#[test]
fn hotbar_key_uses_consumable() {
    let mut inv = Inventory::default();
    inv.slots[1] = slot(ItemId::HealthPotion, 2);
    let mut selected = SelectedHotbarSlot(Some(0));
    let mut health = 4;
    use_hotbar_key(&mut inv, &mut selected, &mut health, 1);
    assert_eq!(health, 9);
    assert_eq!(inv.slots[1], slot(ItemId::HealthPotion, 1));
    assert_eq!(selected.0, Some(0));
}

#[test]
fn hotbar_key_keeps_consumable_at_full_health() {
    let mut inv = Inventory::default();
    inv.slots[1] = slot(ItemId::Mushroom, 1);
    let mut selected = SelectedHotbarSlot(None);
    let mut health = 10;
    use_hotbar_key(&mut inv, &mut selected, &mut health, 1);
    assert_eq!(health, 10);
    assert_eq!(inv.slots[1], slot(ItemId::Mushroom, 1));
}

#[test]
fn hotbar_key_toggles_weapon_selection() {
    let mut inv = Inventory::default();
    inv.slots[2] = slot(ItemId::RustyKnife, 1);
    let mut selected = SelectedHotbarSlot(Some(0));
    let mut health = 5;
    use_hotbar_key(&mut inv, &mut selected, &mut health, 2);
    assert_eq!(selected.0, Some(2));
    use_hotbar_key(&mut inv, &mut selected, &mut health, 2);
    assert_eq!(selected.0, None);
    assert_eq!(inv.slots[2], slot(ItemId::RustyKnife, 1));
}

#[test]
fn hotbar_key_on_empty_or_armor_does_nothing() {
    let mut inv = Inventory::default();
    inv.slots[3] = slot(ItemId::LeatherArmor, 1);
    let mut selected = SelectedHotbarSlot(Some(1));
    let mut health = 5;
    use_hotbar_key(&mut inv, &mut selected, &mut health, 3);
    use_hotbar_key(&mut inv, &mut selected, &mut health, 4);
    assert_eq!(selected.0, Some(1));
    assert_eq!(health, 5);
    assert_eq!(inv.slots[3], slot(ItemId::LeatherArmor, 1));
}

#[test]
fn using_weapon_slot_swaps_with_equipped() {
    let mut inv = Inventory::default();
    inv.slots[6] = slot(ItemId::Sword, 1);
    let mut equipped = EquippedWeaponId(ItemId::WoodenStick);
    let mut health = 5;
    assert!(use_inventory_slot(&mut inv, &mut equipped, &mut health, 6));
    assert_eq!(equipped.0, ItemId::Sword);
    assert_eq!(inv.slots[6], slot(ItemId::WoodenStick, 1));
}

#[test]
fn using_consumable_slot_heals_and_consumes() {
    let mut inv = Inventory::default();
    inv.slots[8] = slot(ItemId::HealthPotion, 1);
    let mut equipped = EquippedWeaponId(ItemId::Fist);
    let mut health = 7;
    assert!(!use_inventory_slot(&mut inv, &mut equipped, &mut health, 8));
    assert_eq!(health, 10);
    assert_eq!(inv.slots[8], None);
    assert_eq!(equipped.0, ItemId::Fist);
}

#[test]
fn using_empty_or_armor_slot_does_nothing() {
    let mut inv = Inventory::default();
    inv.slots[0] = slot(ItemId::LeatherArmor, 1);
    let mut equipped = EquippedWeaponId(ItemId::Fist);
    let mut health = 7;
    assert!(!use_inventory_slot(&mut inv, &mut equipped, &mut health, 0));
    assert!(!use_inventory_slot(&mut inv, &mut equipped, &mut health, 9));
    assert_eq!(inv.slots[0], slot(ItemId::LeatherArmor, 1));
    assert_eq!(health, 7);
}

#[test]
fn selected_weapon_follows_selection() {
    let mut inv = Inventory::default();
    inv.slots[0] = slot(ItemId::Sword, 1);
    inv.slots[1] = slot(ItemId::HealthPotion, 3);
    assert_eq!(sync_selected_weapon(&inv, &SelectedHotbarSlot(Some(0))), Some(ItemId::Sword));
    assert_eq!(sync_selected_weapon(&inv, &SelectedHotbarSlot(Some(1))), None);
    assert_eq!(sync_selected_weapon(&inv, &SelectedHotbarSlot(Some(2))), None);
    assert_eq!(sync_selected_weapon(&inv, &SelectedHotbarSlot(None)), Some(ItemId::Fist));
}
