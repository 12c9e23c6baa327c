use vstd::prelude::*;

use crate::loot::Loot;

verus! {

/// Stage of the death animation in which the body expands and shakes.
pub const DEATH_STAGE_EXPAND: u8 = 0;

/// Stage of the death animation in which the corpse collapses.
pub const DEATH_STAGE_COLLAPSE: u8 = 1;

/// What the death animation does in one frame.
#[derive(Debug, Clone, Copy, PartialEq, Eq, Structural)]
pub enum DeathStep {
    /// Keep animating the current stage.
    Animate,
    /// The expand stage is over: the creature becomes a corpse, drops its loot and the
    /// collapse stage starts.
    BecomeCorpse,
    /// The collapse stage is over: the death animation ends.
    Finish,
    /// A stage this animation does not drive (such as a fall into a pit): nothing happens.
    Ignore,
}

/// The death animation's next stage and step, from its stage and whether the stage's
/// duration has elapsed.
pub open spec fn death_step_spec(stage: u8, stage_elapsed: bool) -> (u8, DeathStep) {
    if stage == DEATH_STAGE_EXPAND {
        if stage_elapsed { (DEATH_STAGE_COLLAPSE, DeathStep::BecomeCorpse) } else { (stage, DeathStep::Animate) }
    } else if stage == DEATH_STAGE_COLLAPSE {
        if stage_elapsed { (stage, DeathStep::Finish) } else { (stage, DeathStep::Animate) }
    } else {
        (stage, DeathStep::Ignore)
    }
}

/// Advances a creature's death animation by one frame.
pub fn advance_death(stage: u8, stage_elapsed: bool) -> (r: (u8, DeathStep))
    ensures
        r == death_step_spec(stage, stage_elapsed),
{
    match stage {
        0 => {
            if stage_elapsed {
                (DEATH_STAGE_COLLAPSE, DeathStep::BecomeCorpse)
            } else {
                (stage, DeathStep::Animate)
            }
        },
        1 => {
            if stage_elapsed {
                (stage, DeathStep::Finish)
            } else {
                (stage, DeathStep::Animate)
            }
        },
        _ => (stage, DeathStep::Ignore),
    }
}

/// Resources the player has collected.
pub struct Stats {
    pub philosophy: u32,
    pub nature_study: u32,
    pub wisdom: u32,
}

impl Stats {
    /// Adds one of each resource that a dead creature's loot holds.
    pub fn collect(&mut self, loot: &Loot)
        requires
            old(self).philosophy < u32::MAX,
            old(self).nature_study < u32::MAX,
            old(self).wisdom < u32::MAX,
        ensures
            final(self).philosophy == old(self).philosophy + (if loot.philosophy { 1int } else { 0int }),
            final(self).nature_study == old(self).nature_study + (if loot.nature_study { 1int } else { 0int }),
            final(self).wisdom == old(self).wisdom + (if loot.wisdom { 1int } else { 0int }),
    {
        if loot.philosophy {
            self.philosophy += 1;
        }
        if loot.nature_study {
            self.nature_study += 1;
        }
        if loot.wisdom {
            self.wisdom += 1;
        }
    }

    /// Clears every collected resource (a new game starts).
    pub fn reset(&mut self)
        ensures
            final(self).philosophy == 0,
            final(self).nature_study == 0,
            final(self).wisdom == 0,
    {
        self.philosophy = 0;
        self.nature_study = 0;
        self.wisdom = 0;
    }
}

/// The death animation only moves forward: its stage never decreases, a creature becomes
/// a corpse (and drops its loot) only when leaving the expand stage, and the animation
/// finishes only from the collapse stage.
pub proof fn lemma_death_moves_forward(stage: u8, stage_elapsed: bool)
    ensures
        death_step_spec(stage, stage_elapsed).0 >= stage,
        death_step_spec(stage, stage_elapsed).1 == DeathStep::BecomeCorpse ==> stage == DEATH_STAGE_EXPAND
            && death_step_spec(stage, stage_elapsed).0 == DEATH_STAGE_COLLAPSE,
        death_step_spec(stage, stage_elapsed).1 == DeathStep::Finish ==> stage == DEATH_STAGE_COLLAPSE,
        !stage_elapsed ==> death_step_spec(stage, stage_elapsed).0 == stage,
{
}

/// Loot is dropped at most once per death: after becoming a corpse, no later frame of
/// the animation drops it again.
pub proof fn lemma_loot_dropped_once(stage: u8, first: bool, second: bool)
    requires
        death_step_spec(stage, first).1 == DeathStep::BecomeCorpse,
    ensures
        death_step_spec(death_step_spec(stage, first).0, second).1 != DeathStep::BecomeCorpse,
{
}

} // verus!
