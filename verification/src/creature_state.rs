use vstd::prelude::*;

verus! {

/// Phases of a creature's attack swing, in the order they are played.
#[derive(Clone, Copy, Debug, PartialEq, Eq, Structural)]
pub enum AttackPhase {
    WindUp,
    Strike,
    Recovery,
}

/// Behaviour state of a creature.
#[derive(Clone, Copy, Debug, PartialEq, Eq, Structural)]
pub enum CreatureState {
    Idle,
    Patrol,
    Chase,
    Attack(AttackPhase),
    /// Post-attack cooldown - creature waits before attacking again
    Cooldown,
    Stunned,
    Dying,
    Dead,
}

/// Whether a creature may move from state `from` to state `to`.
pub open spec fn transition_allowed(from: CreatureState, to: CreatureState) -> bool {
    match from {
        // Dead is terminal
        CreatureState::Dead => false,
        // Dying can only go to Dead
        CreatureState::Dying => to is Dead,
        // Stunned can recover to Idle, Patrol or Chase, or die
        CreatureState::Stunned => {
            to is Idle || to is Patrol || to is Chase || to is Dying || to is Dead
        },
        _ => {
            // Anyone else can die, start dying, or get stunned
            ||| to is Dead
            ||| to is Dying
            ||| to is Stunned
            ||| match from {
                CreatureState::Idle => to is Patrol || to is Chase,
                CreatureState::Patrol => to is Chase || to is Idle,
                CreatureState::Chase => to is Idle || to is Patrol || to is Attack,
                CreatureState::Attack(_) => {
                    to is Attack || to is Cooldown || to is Chase || to is Patrol || to is Idle
                },
                CreatureState::Cooldown => to is Chase || to is Idle,
                _ => false,
            }
        },
    }
}

impl Default for CreatureState {
    fn default() -> (r: Self)
        ensures
            r == CreatureState::Idle,
    {
        CreatureState::Idle
    }
}

impl CreatureState {
    /// Whether the state machine accepts a transition from `self` to `target`.
    pub fn can_transition_to(&self, target: &Self) -> (r: bool)
        ensures
            r == transition_allowed(*self, *target),
    {
        match (self, target) {
            // Dead is terminal
            (CreatureState::Dead, _) => false,
            // Dying can only go to Dead
            (CreatureState::Dying, CreatureState::Dead) => true,
            (CreatureState::Dying, _) => false,
            // Stunned can recover to Idle, Patrol, or Chase
            (CreatureState::Stunned, CreatureState::Idle) => true,
            (CreatureState::Stunned, CreatureState::Patrol) => true,
            (CreatureState::Stunned, CreatureState::Chase) => true,
            (CreatureState::Stunned, CreatureState::Dying) => true,
            (CreatureState::Stunned, CreatureState::Dead) => true,
            (CreatureState::Stunned, _) => false,
            // Anyone can die, start dying, or get stunned
            (_, CreatureState::Dead) => true,
            (_, CreatureState::Dying) => true,
            (_, CreatureState::Stunned) => true,
            // Idle can start patrolling or chasing
            (CreatureState::Idle, CreatureState::Patrol) => true,
            (CreatureState::Idle, CreatureState::Chase) => true,
            (CreatureState::Idle, _) => false,
            // Patrol can chase or return to idle
            (CreatureState::Patrol, CreatureState::Chase) => true,
            (CreatureState::Patrol, CreatureState::Idle) => true,
            (CreatureState::Patrol, _) => false,
            // Chase can attack, patrol, or return to idle
            (CreatureState::Chase, CreatureState::Idle) => true,
            (CreatureState::Chase, CreatureState::Patrol) => true,
            (CreatureState::Chase, CreatureState::Attack(_)) => true,
            (CreatureState::Chase, _) => false,
            // Attack transitions to Cooldown after recovery (or between phases)
            (CreatureState::Attack(_), CreatureState::Attack(_)) => true,
            (CreatureState::Attack(_), CreatureState::Cooldown) => true,
            (CreatureState::Attack(_), CreatureState::Chase) => true,
            (CreatureState::Attack(_), CreatureState::Patrol) => true,
            (CreatureState::Attack(_), CreatureState::Idle) => true,
            // Cooldown returns to Chase (or Idle)
            (CreatureState::Cooldown, CreatureState::Chase) => true,
            (CreatureState::Cooldown, CreatureState::Idle) => true,
            (CreatureState::Cooldown, _) => false,
        }
    }
}

/// What a creature's attack-phase logic observes of its current weapon swing.
#[derive(Clone, Copy, Debug, PartialEq, Eq, Structural)]
pub struct SwingProgress {
    /// The swing timer has reached the moment the hit lands.
    pub reached_hit_delay: bool,
    /// The hit of this swing has been applied.
    pub hit_applied: bool,
    /// The swing timer has reached the swing's full duration.
    pub finished: bool,
}

/// The transition that the attack-phase logic requests for a creature in `current`,
/// given the progress of its swing (`None` when no swinging weapon was found).
pub open spec fn attack_phase_request(current: CreatureState, swing: Option<SwingProgress>) -> Option<CreatureState> {
    match (current, swing) {
        (CreatureState::Attack(AttackPhase::WindUp), Some(s)) => {
            if s.reached_hit_delay { Some(CreatureState::Attack(AttackPhase::Strike)) } else { None }
        },
        (CreatureState::Attack(AttackPhase::Strike), Some(s)) => {
            if s.hit_applied { Some(CreatureState::Attack(AttackPhase::Recovery)) } else { None }
        },
        (CreatureState::Attack(AttackPhase::Recovery), Some(s)) => {
            if s.finished { Some(CreatureState::Cooldown) } else { None }
        },
        _ => None,
    }
}

/// Advances attack phases based on weapon swing progress:
/// WindUp -> Strike when the hit moment is reached, Strike -> Recovery once the hit
/// is applied, Recovery -> Cooldown when the swing is complete.
pub fn advance_attack_phases(current: CreatureState, swing: Option<SwingProgress>) -> (r: Option<CreatureState>)
    ensures
        r == attack_phase_request(current, swing),
{
    let CreatureState::Attack(phase) = current else {
        return None;
    };
    let Some(swing) = swing else {
        return None;
    };
    match phase {
        AttackPhase::WindUp => {
            if swing.reached_hit_delay {
                Some(CreatureState::Attack(AttackPhase::Strike))
            } else {
                None
            }
        },
        AttackPhase::Strike => {
            if swing.hit_applied {
                Some(CreatureState::Attack(AttackPhase::Recovery))
            } else {
                None
            }
        },
        AttackPhase::Recovery => {
            if swing.finished {
                Some(CreatureState::Cooldown)
            } else {
                None
            }
        },
    }
}

/// The transition requested for a hostile creature once its attack cooldown may have expired.
pub open spec fn cooldown_request(current: CreatureState, cooldown_elapsed: bool) -> Option<CreatureState> {
    if current == CreatureState::Cooldown && cooldown_elapsed {
        Some(CreatureState::Chase)
    } else {
        None
    }
}

/// Transitions a creature from Cooldown back to Chase after the cooldown expires.
pub fn advance_cooldown_state(current: CreatureState, cooldown_elapsed: bool) -> (r: Option<CreatureState>)
    ensures
        r == cooldown_request(current, cooldown_elapsed),
{
    if current == CreatureState::Cooldown && cooldown_elapsed {
        Some(CreatureState::Chase)
    } else {
        None
    }
}

/// The transition requested for a creature that has just become hostile.
pub open spec fn provoked_request(current: CreatureState) -> Option<CreatureState> {
    if current == CreatureState::Idle {
        Some(CreatureState::Chase)
    } else {
        None
    }
}

/// A creature that becomes hostile while Idle starts chasing.
pub fn on_creature_provoked(current: CreatureState) -> (r: Option<CreatureState>)
    ensures
        r == provoked_request(current),
{
    if current == CreatureState::Idle {
        Some(CreatureState::Chase)
    } else {
        None
    }
}

/// The transition requested for a hostile creature that may have the player within
/// weapon range: only a chasing creature starts an attack.
pub open spec fn in_range_request(current: CreatureState, player_in_range: bool) -> Option<CreatureState> {
    if current == CreatureState::Chase && player_in_range {
        Some(CreatureState::Attack(AttackPhase::WindUp))
    } else {
        None
    }
}

/// Detects a chasing creature with the player in weapon range and requests its attack wind-up.
pub fn detect_player_proximity(current: CreatureState, player_in_range: bool) -> (r: Option<CreatureState>)
    ensures
        r == in_range_request(current, player_in_range),
{
    if current == CreatureState::Chase && player_in_range {
        Some(CreatureState::Attack(AttackPhase::WindUp))
    } else {
        None
    }
}

/// Whether entering `entered` starts a weapon swing (only the attack wind-up does).
pub fn on_attack_windup_enter(entered: CreatureState) -> (r: bool)
    ensures
        r == (entered == CreatureState::Attack(AttackPhase::WindUp)),
{
    entered == CreatureState::Attack(AttackPhase::WindUp)
}

/// Whether leaving `exited` for `current` ends the weapon swing: only when an attack
/// state is left for a state that is not an attack phase (phase changes keep the swing).
pub fn on_attack_exit(exited: CreatureState, current: CreatureState) -> (r: bool)
    ensures
        r == (exited is Attack && !(current is Attack)),
{
    match (exited, current) {
        (CreatureState::Attack(_), CreatureState::Attack(_)) => false,
        (CreatureState::Attack(_), _) => true,
        _ => false,
    }
}

/// The state a freshly spawned creature starts in: hostile creatures chase, others idle.
pub fn initial_creature_state(is_hostile: bool) -> (r: CreatureState)
    ensures
        r == (if is_hostile { CreatureState::Chase } else { CreatureState::Idle }),
{
    if is_hostile {
        CreatureState::Chase
    } else {
        CreatureState::Idle
    }
}

/// Dead is terminal: no transition leaves it.
pub proof fn lemma_dead_is_terminal(to: CreatureState)
    ensures
        !transition_allowed(CreatureState::Dead, to),
{
}

/// Dying can only go to Dead.
pub proof fn lemma_dying_only_to_dead(to: CreatureState)
    ensures
        transition_allowed(CreatureState::Dying, to) <==> to == CreatureState::Dead,
{
}

/// Anyone still alive can die.
pub proof fn lemma_anyone_can_die(from: CreatureState)
    requires
        from != CreatureState::Dead,
    ensures
        transition_allowed(from, CreatureState::Dead),
{
}

/// Anyone not already dying or dead can start dying.
pub proof fn lemma_anyone_can_start_dying(from: CreatureState)
    requires
        from != CreatureState::Dead,
        from != CreatureState::Dying,
    ensures
        transition_allowed(from, CreatureState::Dying),
{
}

/// Anyone who is neither dying, dead nor already stunned can be stunned.
pub proof fn lemma_anyone_can_be_stunned(from: CreatureState)
    requires
        from != CreatureState::Dead,
        from != CreatureState::Dying,
        from != CreatureState::Stunned,
    ensures
        transition_allowed(from, CreatureState::Stunned),
{
}

/// Stunned can recover to Idle, Patrol or Chase, and to nothing else that is alive.
pub proof fn lemma_stun_recovery(to: CreatureState)
    ensures
        transition_allowed(CreatureState::Stunned, to) <==> (to == CreatureState::Idle
            || to == CreatureState::Patrol || to == CreatureState::Chase
            || to == CreatureState::Dying || to == CreatureState::Dead),
{
}

/// The whole attack cycle is accepted by the state machine:
/// Chase -> WindUp -> Strike -> Recovery -> Cooldown -> Chase.
pub proof fn lemma_attack_cycle_allowed()
    ensures
        transition_allowed(CreatureState::Chase, CreatureState::Attack(AttackPhase::WindUp)),
        transition_allowed(CreatureState::Attack(AttackPhase::WindUp), CreatureState::Attack(AttackPhase::Strike)),
        transition_allowed(CreatureState::Attack(AttackPhase::Strike), CreatureState::Attack(AttackPhase::Recovery)),
        transition_allowed(CreatureState::Attack(AttackPhase::Recovery), CreatureState::Cooldown),
        transition_allowed(CreatureState::Cooldown, CreatureState::Chase),
{
}

/// Every transition the creature behaviour logic requests is one the state machine accepts.
pub proof fn lemma_requests_are_allowed(current: CreatureState, swing: Option<SwingProgress>, flag: bool)
    ensures
        attack_phase_request(current, swing) matches Some(t) ==> transition_allowed(current, t),
        cooldown_request(current, flag) matches Some(t) ==> transition_allowed(current, t),
        provoked_request(current) matches Some(t) ==> transition_allowed(current, t),
        in_range_request(current, flag) matches Some(t) ==> transition_allowed(current, t),
{
}

/// The attack-phase logic never moves backwards or skips a phase: from WindUp it can only
/// request Strike, from Strike only Recovery, and from Recovery only Cooldown.
pub proof fn lemma_attack_phases_advance_in_order(current: CreatureState, swing: Option<SwingProgress>)
    ensures
        attack_phase_request(current, swing) matches Some(t) ==> match current {
            CreatureState::Attack(AttackPhase::WindUp) => t == CreatureState::Attack(AttackPhase::Strike),
            CreatureState::Attack(AttackPhase::Strike) => t == CreatureState::Attack(AttackPhase::Recovery),
            CreatureState::Attack(AttackPhase::Recovery) => t == CreatureState::Cooldown,
            _ => false,
        },
{
}

/// Only a chasing creature that has the player in weapon range starts an attack, and it
/// always starts it with the wind-up. A creature that is already attacking, cooling down,
/// idle, patrolling, stunned or dying never requests a wind-up, so a running attack is
/// never restarted.
pub proof fn lemma_only_chasing_creatures_start_attacks(current: CreatureState, player_in_range: bool)
    ensures
        in_range_request(current, player_in_range) is Some <==> (current == CreatureState::Chase
            && player_in_range),
        in_range_request(current, player_in_range) matches Some(t) ==> t == CreatureState::Attack(
            AttackPhase::WindUp,
        ),
        current is Attack ==> in_range_request(current, player_in_range) is None,
{
}

/// Only an idle creature reacts to being provoked, and it starts chasing.
pub proof fn lemma_provoked_only_from_idle(current: CreatureState)
    ensures
        provoked_request(current) is Some <==> current == CreatureState::Idle,
        provoked_request(current) matches Some(t) ==> t == CreatureState::Chase,
{
}

/// Only a cooling-down creature whose cooldown has expired moves on, and it goes back to chasing.
pub proof fn lemma_cooldown_ends_in_chase(current: CreatureState, cooldown_elapsed: bool)
    ensures
        cooldown_request(current, cooldown_elapsed) is Some <==> (current == CreatureState::Cooldown
            && cooldown_elapsed),
        cooldown_request(current, cooldown_elapsed) matches Some(t) ==> t == CreatureState::Chase,
{
}

/// The attack-phase logic acts only on attacking creatures whose swing is known, and it
/// always moves a phase on once that phase's swing milestone is reached: the hit moment
/// for the wind-up, the applied hit for the strike, the end of the swing for the recovery.
pub proof fn lemma_attack_phase_moves_on_at_milestone(current: CreatureState, swing: Option<SwingProgress>)
    ensures
        attack_phase_request(current, swing) is Some ==> current is Attack && swing is Some,
        swing matches Some(s) ==> {
            &&& current == CreatureState::Attack(AttackPhase::WindUp) ==> (attack_phase_request(
                current,
                swing,
            ) is Some <==> s.reached_hit_delay)
            &&& current == CreatureState::Attack(AttackPhase::Strike) ==> (attack_phase_request(
                current,
                swing,
            ) is Some <==> s.hit_applied)
            &&& current == CreatureState::Attack(AttackPhase::Recovery) ==> (attack_phase_request(
                current,
                swing,
            ) is Some <==> s.finished)
        },
{
}

} // verus!
