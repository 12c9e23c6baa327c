use vstd::prelude::*;

use crate::items::Rarity;

verus! {

/// A piece of armor.
pub struct Armor {
    pub name: String,
    pub defense: i32,
    pub rarity: Rarity,
}

/// A usable item that heals.
pub struct Consumable {
    pub name: String,
    pub heal_amount: i32,
}

/// Common leather armor.
pub fn leather_armor() -> (r: Armor)
    ensures
        r.name@ == "Leather Armor"@,
        r.defense == 2,
        r.rarity == Rarity::Common,
{
    Armor { name: "Leather Armor".to_string(), defense: 2, rarity: Rarity::Common }
}

/// A potion that heals five points.
pub fn health_potion() -> (r: Consumable)
    ensures
        r.name@ == "Health Potion"@,
        r.heal_amount == 5,
{
    Consumable { name: "Health Potion".to_string(), heal_amount: 5 }
}

} // verus!
