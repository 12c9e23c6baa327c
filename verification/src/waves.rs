use vstd::prelude::*;

verus! {

/// Goblins spawned on each side of the win zone during the final wave.
pub const WAVE_GOBLINS_PER_SIDE: u32 = 4;

/// Progress of the goblin wave that is triggered while the player holds the win zone.
pub struct WaveSpawnState {
    pub triggered: bool,
    pub spawned_left: u32,
    pub spawned_right: u32,
}

/// Which goblins one spawn step brings in, and the row (pair index) they spawn at.
pub struct WaveSpawn {
    pub left: bool,
    pub right: bool,
    pub row: usize,
}

/// The wave state after one spawn step: each side that has not spawned its share gains one goblin.
pub open spec fn after_spawn_pair(s: WaveSpawnState) -> WaveSpawnState {
    WaveSpawnState {
        triggered: s.triggered,
        spawned_left: if s.spawned_left < WAVE_GOBLINS_PER_SIDE { (s.spawned_left + 1) as u32 } else { s.spawned_left },
        spawned_right: if s.spawned_right < WAVE_GOBLINS_PER_SIDE { (s.spawned_right + 1) as u32 } else { s.spawned_right },
    }
}

impl Default for WaveSpawnState {
    /// A wave that has not been triggered and has spawned nothing.
    fn default() -> (r: Self)
        ensures
            !r.triggered,
            r.spawned_left == 0,
            r.spawned_right == 0,
    {
        WaveSpawnState { triggered: false, spawned_left: 0, spawned_right: 0 }
    }
}

impl WaveSpawnState {
    /// Neither side has spawned more than its share of goblins.
    pub open spec fn well_formed(&self) -> bool {
        self.spawned_left <= WAVE_GOBLINS_PER_SIDE && self.spawned_right <= WAVE_GOBLINS_PER_SIDE
    }

    /// The wave is running: it has been triggered and not all goblins have spawned.
    pub open spec fn is_active(&self) -> bool {
        self.triggered && self.spawned_left + self.spawned_right < WAVE_GOBLINS_PER_SIDE * 2
    }

    /// Whether the wave's spawn timer should run this frame.
    pub fn wants_spawn(&self) -> (r: bool)
        requires
            self.spawned_left + self.spawned_right <= u32::MAX,
        ensures
            r == self.is_active(),
    {
        if !self.triggered {
            return false;
        }
        let total_spawned = self.spawned_left + self.spawned_right;
        let max_spawns = WAVE_GOBLINS_PER_SIDE * 2;
        total_spawned < max_spawns
    }

    /// Triggers the wave once the player has held the win zone long enough; returns
    /// whether this call triggered it (it triggers only once).
    pub fn trigger(&mut self) -> (r: bool)
        ensures
            r == !old(self).triggered,
            final(self).triggered,
            final(self).spawned_left == old(self).spawned_left,
            final(self).spawned_right == old(self).spawned_right,
    {
        if !self.triggered {
            self.triggered = true;
            true
        } else {
            false
        }
    }

    /// One spawn step, taken when the spawn interval has elapsed: one goblin on each
    /// side that has not spawned its share yet, at the row given by the left side's count.
    pub fn spawn_pair(&mut self) -> (r: WaveSpawn)
        ensures
            r.row == old(self).spawned_left,
            r.left == (old(self).spawned_left < WAVE_GOBLINS_PER_SIDE),
            r.right == (old(self).spawned_right < WAVE_GOBLINS_PER_SIDE),
            *final(self) == after_spawn_pair(*old(self)),
    {
        let row = self.spawned_left as usize;
        let left = self.spawned_left < WAVE_GOBLINS_PER_SIDE;
        if left {
            self.spawned_left += 1;
        }
        let right = self.spawned_right < WAVE_GOBLINS_PER_SIDE;
        if right {
            self.spawned_right += 1;
        }
        WaveSpawn { left, right, row }
    }
}

/// Spawning never gives a side more than its share of goblins.
pub proof fn lemma_spawn_keeps_share(s: WaveSpawnState)
    requires
        s.well_formed(),
    ensures
        after_spawn_pair(s).well_formed(),
{
}

/// Every spawn step of an active wave brings in at least one more goblin, so an active
/// wave ends after finitely many steps.
pub proof fn lemma_active_wave_progresses(s: WaveSpawnState)
    requires
        s.well_formed(),
        s.is_active(),
    ensures
        after_spawn_pair(s).spawned_left + after_spawn_pair(s).spawned_right > s.spawned_left + s.spawned_right,
{
}

/// A wave that has spawned every goblin is over, and further spawn steps bring no one.
pub proof fn lemma_full_wave_is_over(s: WaveSpawnState)
    requires
        s.spawned_left == WAVE_GOBLINS_PER_SIDE,
        s.spawned_right == WAVE_GOBLINS_PER_SIDE,
    ensures
        !s.is_active(),
        after_spawn_pair(s) == s,
{
}

} // verus!
