use vstd::prelude::*;

use crate::creature_state::{AttackPhase, CreatureState};

verus! {

/// How a weapon attack is drawn and swung.
#[derive(Debug, Clone, Copy, PartialEq, Eq, Structural)]
pub enum AttackType {
    Slash,
    Stab,
    Smash,
}

impl Default for AttackType {
    fn default() -> (r: Self)
        ensures
            r == AttackType::Slash,
    {
        AttackType::Slash
    }
}

/// Kind of damage a weapon deals.
#[derive(Debug, Clone, Copy, PartialEq, Eq, Structural)]
pub enum DamageType {
    Physical,
}

impl Default for DamageType {
    fn default() -> (r: Self)
        ensures
            r == DamageType::Physical,
    {
        DamageType::Physical
    }
}

/// Blood particles spawned when a hit kills its target.
pub const KILL_BLOOD_PARTICLES: u32 = 25;

/// Blood particles spawned when a hit wounds its target.
pub const WOUND_BLOOD_PARTICLES: u32 = 12;

/// What a weapon hit does to a creature beyond its health.
#[derive(Debug, Clone, Copy, PartialEq, Eq, Structural)]
pub enum HitOutcome {
    /// Health dropped to zero or below: the death animation starts.
    Killed,
    /// A creature that was not hostile survives and turns hostile (provoked).
    Provoked,
    /// A hostile creature survives.
    Wounded,
}

/// Result of a player weapon hit on a creature.
#[derive(Debug, Clone, Copy, PartialEq, Eq, Structural)]
pub struct CreatureHit {
    pub health: i32,
    pub blood_particles: u32,
    pub outcome: HitOutcome,
}

/// What a hit leaving a creature at `health_after` does, given whether it was hostile.
pub open spec fn hit_outcome(health_after: int, hostile: bool) -> HitOutcome {
    if health_after <= 0 {
        HitOutcome::Killed
    } else if !hostile {
        HitOutcome::Provoked
    } else {
        HitOutcome::Wounded
    }
}

/// Resolves a player weapon hit on a creature with `health`, dealing `damage`.
pub fn resolve_creature_hit(health: i32, damage: i32, hostile: bool) -> (r: CreatureHit)
    requires
        i32::MIN <= health - damage <= i32::MAX,
    ensures
        r.health == health - damage,
        r.blood_particles == (if r.health <= 0 { KILL_BLOOD_PARTICLES } else { WOUND_BLOOD_PARTICLES }),
        r.outcome == hit_outcome(r.health as int, hostile),
{
    let health = health - damage;
    let blood_particles = if health <= 0 { KILL_BLOOD_PARTICLES } else { WOUND_BLOOD_PARTICLES };
    let outcome = if health <= 0 {
        HitOutcome::Killed
    } else if !hostile {
        // Make non-hostile creature become hostile when hit (provoked = direct pursuit)
        HitOutcome::Provoked
    } else {
        HitOutcome::Wounded
    };
    CreatureHit { health, blood_particles, outcome }
}

/// Applies a creature's blow to the player: health drops by the blow's damage, and a
/// blow reduced below zero (by blocking) deals nothing.
pub fn apply_damage_to_player(health: &mut i32, damage: i32)
    requires
        i32::MIN <= *old(health) - (if damage > 0 { damage as int } else { 0int }),
    ensures
        *final(health) == *old(health) - (if damage > 0 { damage as int } else { 0int }),
{
    let dealt = damage.max(0);
    *health = *health - dealt;
}

/// Whether a creature's weapon should be tested against the player this frame: its hit
/// is not yet applied and the creature is in the strike phase of an attack.
pub fn strike_pending(current: CreatureState, hit_applied: bool) -> (r: bool)
    ensures
        r == (!hit_applied && current == CreatureState::Attack(AttackPhase::Strike)),
{
    !hit_applied && current == CreatureState::Attack(AttackPhase::Strike)
}

/// Whether a weapon's mesh is shown when drawn (smash weapons use sprite animation instead).
pub fn shows_weapon_mesh(attack_type: AttackType) -> (r: bool)
    ensures
        r == (attack_type != AttackType::Smash),
{
    attack_type != AttackType::Smash
}

/// Result of toggling the player's weapon: whether it is now drawn, and the visibility
/// to give it (`None` leaves its visibility as it is).
#[derive(Debug, Clone, Copy, PartialEq, Eq, Structural)]
pub struct WeaponToggle {
    pub drawn: bool,
    pub visible: Option<bool>,
}

/// Toggles the player's weapon: a drawn weapon is sheathed and hidden; a sheathed one is
/// drawn, and shown unless it is a smash weapon.
pub fn toggle_weapon(drawn: bool, attack_type: AttackType) -> (r: WeaponToggle)
    ensures
        r.drawn == !drawn,
        r.visible == (if drawn {
            Some(false)
        } else if attack_type != AttackType::Smash {
            Some(true)
        } else {
            None
        }),
{
    if drawn {
        WeaponToggle { drawn: false, visible: Some(false) }
    } else if shows_weapon_mesh(attack_type) {
        WeaponToggle { drawn: true, visible: Some(true) }
    } else {
        WeaponToggle { drawn: true, visible: None }
    }
}

/// Whether the player blocks this frame: `None` when the weapon is not drawn (blocking is
/// left as it is), otherwise whether the block input is held.
pub fn handle_block(weapon_drawn: bool, block_pressed: bool) -> (r: Option<bool>)
    ensures
        r == (if weapon_drawn { Some(block_pressed) } else { None }),
{
    if !weapon_drawn {
        return None;
    }
    Some(block_pressed)
}

/// A hit kills exactly when it takes health to zero or below; a surviving creature that
/// was not hostile is provoked, and a hostile one is never provoked again.
pub proof fn lemma_hit_outcomes(health_after: int, hostile: bool)
    ensures
        (hit_outcome(health_after, hostile) == HitOutcome::Killed) <==> health_after <= 0,
        (hit_outcome(health_after, hostile) == HitOutcome::Provoked) <==> (health_after > 0 && !hostile),
        hostile ==> hit_outcome(health_after, hostile) != HitOutcome::Provoked,
{
}

} // verus!
