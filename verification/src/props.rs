use vstd::prelude::*;

verus! {

/// Kinds of static props placed in the world.
#[derive(Debug, Clone, Copy, PartialEq, Eq, Hash, Structural)]
pub enum PropType {
    Pillar,
    Barrel,
    Crate,
    StoneWall,
}

/// A prop in the world.
pub struct Prop {
    pub prop_type: PropType,
}

/// Remaining health of a prop that can be smashed.
pub struct Destructible {
    pub health: i32,
}

/// Starting health of a prop kind, or `None` when it cannot be destroyed.
pub open spec fn prop_health(prop_type: PropType) -> Option<i32> {
    match prop_type {
        PropType::Barrel => Some(1),
        PropType::Crate => Some(2),
        _ => None,
    }
}

/// Whether a prop kind has a second, damaged sprite shown after its first hit.
pub open spec fn has_damaged_sprite(prop_type: PropType) -> bool {
    prop_type == PropType::Crate || prop_type == PropType::Barrel
}

impl PropType {
    /// Whether props of this kind can be destroyed.
    pub fn destructible(&self) -> (r: bool)
        ensures
            r == prop_health(*self) is Some,
    {
        match self {
            PropType::Barrel | PropType::Crate => true,
            _ => false,
        }
    }

    /// Starting health of props of this kind (`None` when they cannot be destroyed).
    pub fn health(&self) -> (r: Option<i32>)
        ensures
            r == prop_health(*self),
    {
        match self {
            PropType::Barrel => Some(1),
            PropType::Crate => Some(2),
            _ => None,
        }
    }
}

/// What a smash attack does to a destructible prop.
#[derive(Debug, Clone, Copy, PartialEq, Eq, Structural)]
pub enum PropHit {
    /// Health dropped to zero or below: the prop is removed.
    Destroyed,
    /// The prop survives; `show_damaged` says whether to switch to its damaged sprite now.
    Damaged { show_damaged: bool },
}

/// Applies a smash hit of `damage` to a destructible prop; the prop switches to its
/// damaged sprite on the first surviving hit, if its kind has one.
pub fn resolve_prop_hit(prop_type: PropType, destructible: &mut Destructible, damage: i32, already_damaged: bool) -> (r: PropHit)
    requires
        i32::MIN <= old(destructible).health - damage <= i32::MAX,
    ensures
        final(destructible).health == old(destructible).health - damage,
        r == (if final(destructible).health <= 0 {
            PropHit::Destroyed
        } else {
            PropHit::Damaged { show_damaged: has_damaged_sprite(prop_type) && !already_damaged }
        }),
{
    destructible.health = destructible.health - damage;
    if destructible.health <= 0 {
        PropHit::Destroyed
    } else {
        let damaged_sprite = match prop_type {
            PropType::Crate | PropType::Barrel => true,
            _ => false,
        };
        PropHit::Damaged { show_damaged: damaged_sprite && !already_damaged }
    }
}

} // verus!
