use vstd::prelude::*;

verus! {

/// Resources a creature drops when it dies.
#[derive(Debug, Clone, Copy, PartialEq, Eq, Structural)]
pub struct Loot {
    pub philosophy: bool,
    pub nature_study: bool,
    pub wisdom: bool,
}

/// Number of resources in a loot drop.
pub open spec fn loot_count(loot: Loot) -> int {
    (if loot.philosophy { 1int } else { 0int }) + (if loot.nature_study { 1int } else { 0int }) + (
    if loot.wisdom { 1int } else { 0int })
}

/// Accepts one roll of a spawned creature's loot: a roll that drops nothing is rejected
/// (`None`) and rolled again, any other roll becomes the creature's loot.
pub fn accept_loot_roll(philosophy: bool, nature_study: bool, wisdom: bool) -> (r: Option<Loot>)
    ensures
        r is Some <==> (philosophy || nature_study || wisdom),
        r matches Some(l) ==> l == (Loot { philosophy, nature_study, wisdom }),
{
    let count: u8 = (if philosophy { 1u8 } else { 0u8 }) + (if nature_study { 1u8 } else { 0u8 }) + (
    if wisdom { 1u8 } else { 0u8 });
    if count >= 1 && count <= 3 {
        Some(Loot { philosophy, nature_study, wisdom })
    } else {
        None
    }
}

/// Every accepted loot roll drops between one and three resources.
pub proof fn lemma_accepted_loot_not_empty(philosophy: bool, nature_study: bool, wisdom: bool)
    requires
        philosophy || nature_study || wisdom,
    ensures
        1 <= loot_count(Loot { philosophy, nature_study, wisdom }) <= 3,
{
}

} // verus!
