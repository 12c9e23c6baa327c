use vstd::prelude::*;

verus! {

/// Number of directions in a steering context map (0 = East, rotating counter-clockwise).
pub const NUM_DIRECTIONS: usize = 8;

/// Steering behavior strategy.
#[derive(Clone, Copy, Debug, PartialEq, Eq, Structural)]
pub enum SteeringStrategy {
    /// Straight toward the player.
    Direct,
    /// Approach the player from an angle.
    Flanking,
}

impl Default for SteeringStrategy {
    fn default() -> (r: Self)
        ensures
            r == SteeringStrategy::Direct,
    {
        SteeringStrategy::Direct
    }
}

} // verus!
