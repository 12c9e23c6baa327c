use eggo::creature_state::{
    advance_attack_phases, advance_cooldown_state, detect_player_proximity, initial_creature_state,
    on_attack_exit, on_attack_windup_enter, on_creature_provoked, AttackPhase, CreatureState, SwingProgress,
};

const ALL_STATES: [CreatureState; 10] = [
    CreatureState::Idle,
    CreatureState::Patrol,
    CreatureState::Chase,
    CreatureState::Attack(AttackPhase::WindUp),
    CreatureState::Attack(AttackPhase::Strike),
    CreatureState::Attack(AttackPhase::Recovery),
    CreatureState::Cooldown,
    CreatureState::Stunned,
    CreatureState::Dying,
    CreatureState::Dead,
];

#[test]
fn default_state_is_idle() {
    assert_eq!(CreatureState::default(), CreatureState::Idle);
}

#[test]
fn dead_is_terminal() {
    for to in ALL_STATES.iter() {
        assert!(!CreatureState::Dead.can_transition_to(to));
    }
}

#[test]
fn dying_only_goes_to_dead() {
    for to in ALL_STATES.iter() {
        assert_eq!(CreatureState::Dying.can_transition_to(to), *to == CreatureState::Dead);
    }
}

#[test]
fn anyone_alive_can_die() {
    for from in ALL_STATES.iter() {
        if *from != CreatureState::Dead {
            assert!(from.can_transition_to(&CreatureState::Dead));
        }
    }
}

#[test]
fn stunned_recovers_to_idle_patrol_or_chase() {
    assert!(CreatureState::Stunned.can_transition_to(&CreatureState::Idle));
    assert!(CreatureState::Stunned.can_transition_to(&CreatureState::Patrol));
    assert!(CreatureState::Stunned.can_transition_to(&CreatureState::Chase));
    assert!(!CreatureState::Stunned.can_transition_to(&CreatureState::Cooldown));
    assert!(!CreatureState::Stunned.can_transition_to(&CreatureState::Stunned));
    assert!(!CreatureState::Stunned.can_transition_to(&CreatureState::Attack(AttackPhase::WindUp)));
}

#[test]
fn ordinary_transitions() {
    assert!(CreatureState::Idle.can_transition_to(&CreatureState::Patrol));
    assert!(CreatureState::Idle.can_transition_to(&CreatureState::Chase));
    assert!(!CreatureState::Idle.can_transition_to(&CreatureState::Cooldown));
    assert!(!CreatureState::Idle.can_transition_to(&CreatureState::Attack(AttackPhase::WindUp)));
    assert!(CreatureState::Patrol.can_transition_to(&CreatureState::Chase));
    assert!(!CreatureState::Patrol.can_transition_to(&CreatureState::Attack(AttackPhase::Strike)));
    assert!(CreatureState::Chase.can_transition_to(&CreatureState::Attack(AttackPhase::Recovery)));
    assert!(!CreatureState::Chase.can_transition_to(&CreatureState::Cooldown));
    assert!(CreatureState::Attack(AttackPhase::Strike).can_transition_to(&CreatureState::Attack(AttackPhase::WindUp)));
    assert!(CreatureState::Attack(AttackPhase::Recovery).can_transition_to(&CreatureState::Cooldown));
    assert!(CreatureState::Cooldown.can_transition_to(&CreatureState::Chase));
    assert!(CreatureState::Cooldown.can_transition_to(&CreatureState::Idle));
    assert!(!CreatureState::Cooldown.can_transition_to(&CreatureState::Patrol));
    assert!(CreatureState::Cooldown.can_transition_to(&CreatureState::Stunned));
    assert!(CreatureState::Chase.can_transition_to(&CreatureState::Dying));
}

fn swing(reached_hit_delay: bool, hit_applied: bool, finished: bool) -> Option<SwingProgress> {
    Some(SwingProgress { reached_hit_delay, hit_applied, finished })
}

#[test]
fn attack_phases_advance_in_order() {
    let windup = CreatureState::Attack(AttackPhase::WindUp);
    let strike = CreatureState::Attack(AttackPhase::Strike);
    let recovery = CreatureState::Attack(AttackPhase::Recovery);
    assert_eq!(advance_attack_phases(windup, swing(false, false, false)), None);
    assert_eq!(advance_attack_phases(windup, swing(true, false, false)), Some(strike));
    assert_eq!(advance_attack_phases(strike, swing(true, false, false)), None);
    assert_eq!(advance_attack_phases(strike, swing(true, true, false)), Some(recovery));
    assert_eq!(advance_attack_phases(recovery, swing(true, true, false)), None);
    assert_eq!(advance_attack_phases(recovery, swing(true, true, true)), Some(CreatureState::Cooldown));
    assert_eq!(advance_attack_phases(windup, None), None);
    assert_eq!(advance_attack_phases(CreatureState::Chase, swing(true, true, true)), None);
}

#[test]
fn requested_transitions_are_allowed() {
    for from in ALL_STATES.iter() {
        for flags in 0..8u8 {
            let s = swing(flags & 1 != 0, flags & 2 != 0, flags & 4 != 0);
            if let Some(to) = advance_attack_phases(*from, s) {
                assert!(from.can_transition_to(&to));
            }
        }
        for flag in [false, true] {
            if let Some(to) = advance_cooldown_state(*from, flag) {
                assert!(from.can_transition_to(&to));
            }
            if let Some(to) = detect_player_proximity(*from, flag) {
                assert!(from.can_transition_to(&to));
            }
        }
        if let Some(to) = on_creature_provoked(*from) {
            assert!(from.can_transition_to(&to));
        }
    }
}

#[test]
fn cooldown_returns_to_chase_when_elapsed() {
    assert_eq!(advance_cooldown_state(CreatureState::Cooldown, true), Some(CreatureState::Chase));
    assert_eq!(advance_cooldown_state(CreatureState::Cooldown, false), None);
    assert_eq!(advance_cooldown_state(CreatureState::Chase, true), None);
}

#[test]
fn provoked_idle_creature_chases() {
    assert_eq!(on_creature_provoked(CreatureState::Idle), Some(CreatureState::Chase));
    assert_eq!(on_creature_provoked(CreatureState::Patrol), None);
    assert_eq!(on_creature_provoked(CreatureState::Chase), None);
}

#[test]
fn only_chasing_creature_starts_attack_in_range() {
    assert_eq!(
        detect_player_proximity(CreatureState::Chase, true),
        Some(CreatureState::Attack(AttackPhase::WindUp))
    );
    assert_eq!(detect_player_proximity(CreatureState::Chase, false), None);
    assert_eq!(detect_player_proximity(CreatureState::Cooldown, true), None);
    assert_eq!(detect_player_proximity(CreatureState::Idle, true), None);
}

#[test]
fn swing_starts_on_windup_and_ends_when_attack_left() {
    assert!(on_attack_windup_enter(CreatureState::Attack(AttackPhase::WindUp)));
    assert!(!on_attack_windup_enter(CreatureState::Attack(AttackPhase::Strike)));
    assert!(!on_attack_windup_enter(CreatureState::Chase));
    assert!(on_attack_exit(CreatureState::Attack(AttackPhase::Recovery), CreatureState::Cooldown));
    assert!(!on_attack_exit(CreatureState::Attack(AttackPhase::WindUp), CreatureState::Attack(AttackPhase::Strike)));
    assert!(!on_attack_exit(CreatureState::Chase, CreatureState::Idle));
}

#[test]
fn spawned_creatures_start_idle_or_chasing() {
    assert_eq!(initial_creature_state(true), CreatureState::Chase);
    assert_eq!(initial_creature_state(false), CreatureState::Idle);
}
