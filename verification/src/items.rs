use vstd::prelude::*;

verus! {

/// Rarity grade of an item.
#[derive(Debug, Clone, Copy, PartialEq, Eq, Structural)]
pub enum Rarity {
    Common,
    Uncommon,
    Rare,
    Epic,
    Legendary,
}

impl Default for Rarity {
    fn default() -> (r: Self)
        ensures
            r == Rarity::Common,
    {
        Rarity::Common
    }
}

/// Identifier of every item kind in the game.
#[derive(Debug, Clone, Copy, PartialEq, Eq, Hash, Structural)]
pub enum ItemId {
    WoodenStick,
    RustyKnife,
    Sword,
    Fist,
    HealthPotion,
    Mushroom,
    LeatherArmor,
}

/// Broad kind of an item, which decides what using it does.
#[derive(Debug, Clone, Copy, PartialEq, Eq, Structural)]
pub enum ItemCategory {
    Weapon,
    Armor,
    Consumable,
}

/// Effect when a consumable is used.
#[derive(Debug, Clone, Copy, PartialEq, Eq, Structural)]
pub enum ConsumableEffect {
    Heal(i32),
}

/// Basic data of an item kind: its display name, category and stack size.
pub struct ItemData {
    pub id: ItemId,
    pub name: String,
    pub category: ItemCategory,
    pub stack_max: u32,
}

/// The gameplay definition of an item kind (what the logic reads of the item registry).
pub struct ItemDefinition {
    pub name: String,
    pub category: ItemCategory,
    pub stack_max: u32,
    pub consumable_effect: Option<ConsumableEffect>,
}

/// Display name of an item kind.
pub open spec fn item_name(id: ItemId) -> Seq<char> {
    match id {
        ItemId::WoodenStick => "Wooden Stick"@,
        ItemId::RustyKnife => "Rusty Knife"@,
        ItemId::Sword => "Sword"@,
        ItemId::Fist => "Fist"@,
        ItemId::HealthPotion => "Health Potion"@,
        ItemId::Mushroom => "Mushroom"@,
        ItemId::LeatherArmor => "Leather Armor"@,
    }
}

/// Category of an item kind.
pub open spec fn item_category(id: ItemId) -> ItemCategory {
    match id {
        ItemId::WoodenStick | ItemId::RustyKnife | ItemId::Sword | ItemId::Fist => ItemCategory::Weapon,
        ItemId::HealthPotion | ItemId::Mushroom => ItemCategory::Consumable,
        ItemId::LeatherArmor => ItemCategory::Armor,
    }
}

/// How many items of a kind fit in one inventory slot.
pub open spec fn stack_max_of(id: ItemId) -> u32 {
    match id {
        ItemId::HealthPotion | ItemId::Mushroom => 10,
        _ => 1,
    }
}

/// What using an item of this kind does, if it is a consumable.
pub open spec fn consumable_effect_of(id: ItemId) -> Option<ConsumableEffect> {
    match id {
        ItemId::HealthPotion => Some(ConsumableEffect::Heal(5)),
        ItemId::Mushroom => Some(ConsumableEffect::Heal(3)),
        _ => None,
    }
}

/// Whether an item kind has weapon stats (can be wielded).
pub open spec fn is_weapon_item(id: ItemId) -> bool {
    match id {
        ItemId::WoodenStick | ItemId::RustyKnife | ItemId::Sword | ItemId::Fist => true,
        _ => false,
    }
}

/// Returns the basic data of an item kind.
pub fn get_item_data(id: ItemId) -> (r: ItemData)
    ensures
        r.id == id,
        r.name@ == item_name(id),
        r.category == item_category(id),
        r.stack_max == stack_max_of(id),
{
    match id {
        ItemId::WoodenStick => ItemData {
            id,
            name: "Wooden Stick".to_string(),
            category: ItemCategory::Weapon,
            stack_max: 1,
        },
        ItemId::RustyKnife => ItemData {
            id,
            name: "Rusty Knife".to_string(),
            category: ItemCategory::Weapon,
            stack_max: 1,
        },
        ItemId::Sword => ItemData {
            id,
            name: "Sword".to_string(),
            category: ItemCategory::Weapon,
            stack_max: 1,
        },
        ItemId::Fist => ItemData {
            id,
            name: "Fist".to_string(),
            category: ItemCategory::Weapon,
            stack_max: 1,
        },
        ItemId::HealthPotion => ItemData {
            id,
            name: "Health Potion".to_string(),
            category: ItemCategory::Consumable,
            stack_max: 10,
        },
        ItemId::Mushroom => ItemData {
            id,
            name: "Mushroom".to_string(),
            category: ItemCategory::Consumable,
            stack_max: 10,
        },
        ItemId::LeatherArmor => ItemData {
            id,
            name: "Leather Armor".to_string(),
            category: ItemCategory::Armor,
            stack_max: 1,
        },
    }
}

/// Returns the gameplay definition of an item kind, as held by the item registry.
pub fn item_definition(id: ItemId) -> (r: ItemDefinition)
    ensures
        r.name@ == item_name(id),
        r.category == item_category(id),
        r.stack_max == stack_max_of(id),
        r.consumable_effect == consumable_effect_of(id),
{
    let data = get_item_data(id);
    let consumable_effect = match id {
        ItemId::HealthPotion => Some(ConsumableEffect::Heal(5)),
        ItemId::Mushroom => Some(ConsumableEffect::Heal(3)),
        _ => None,
    };
    ItemDefinition {
        name: data.name,
        category: data.category,
        stack_max: data.stack_max,
        consumable_effect,
    }
}

/// Whether an item kind has weapon stats, so that it can be wielded.
pub fn has_weapon_stats(id: ItemId) -> (r: bool)
    ensures
        r == is_weapon_item(id),
{
    match id {
        ItemId::WoodenStick | ItemId::RustyKnife | ItemId::Sword | ItemId::Fist => true,
        _ => false,
    }
}

/// Every weapon-category item kind has weapon stats, and no other kind has.
pub proof fn lemma_weapon_category_has_stats(id: ItemId)
    ensures
        is_weapon_item(id) <==> item_category(id) == ItemCategory::Weapon,
{
}

/// Exactly the consumable-category item kinds have a use effect.
pub proof fn lemma_consumables_have_effects(id: ItemId)
    ensures
        consumable_effect_of(id) is Some <==> item_category(id) == ItemCategory::Consumable,
{
}

/// Only consumables stack: weapons and armor take a slot each, while a consumable
/// stack holds up to ten items.
pub proof fn lemma_only_consumables_stack(id: ItemId)
    ensures
        item_category(id) != ItemCategory::Consumable ==> stack_max_of(id) == 1,
        item_category(id) == ItemCategory::Consumable ==> stack_max_of(id) == 10,
{
}

} // verus!
