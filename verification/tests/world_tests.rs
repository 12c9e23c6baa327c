use eggo::creature_state::{AttackPhase, CreatureState};
use eggo::goblin_animation::{update_goblin_sprite_animation, AnimationSpeed, GoblinFacing, GoblinPose};
use eggo::input::{hotbar_action, BoundKey, BoundMouseButton, GameAction, InputBinding, InputBindings};
use eggo::mesh_indices::{arc_mesh_indices, quad_mesh_indices};
use eggo::steering::{SteeringStrategy, NUM_DIRECTIONS};
use eggo::waves::{WaveSpawnState, WAVE_GOBLINS_PER_SIDE};

#[test]
fn goblin_attack_animation() {
    let a = update_goblin_sprite_animation(CreatureState::Attack(AttackPhase::Strike), false, false, GoblinFacing::Left)
        .unwrap();
    assert_eq!(a.name, "att_left_1");
    assert_eq!(a.pose, GoblinPose::Attack);
    assert_eq!(a.speed, AnimationSpeed::Normal);
    assert!(!a.flip_x);
}

#[test]
fn goblin_windup_and_idle_play_half_speed() {
    let a = update_goblin_sprite_animation(CreatureState::Attack(AttackPhase::WindUp), false, false, GoblinFacing::Up)
        .unwrap();
    assert_eq!(a.name, "idle_up");
    assert_eq!(a.speed, AnimationSpeed::Half);
    let b = update_goblin_sprite_animation(CreatureState::Cooldown, false, false, GoblinFacing::Down).unwrap();
    assert_eq!(b.name, "idle_down");
    assert_eq!(b.speed, AnimationSpeed::Half);
}

#[test]
fn goblin_chase_walks() {
    let a = update_goblin_sprite_animation(CreatureState::Chase, false, false, GoblinFacing::Right).unwrap();
    assert_eq!(a.name, "walk_right");
    assert_eq!(a.speed, AnimationSpeed::Normal);
}

#[test]
fn goblin_hurt_and_death_take_priority() {
    let dying = update_goblin_sprite_animation(CreatureState::Chase, true, true, GoblinFacing::Down).unwrap();
    assert_eq!(dying.name, "hurt_down");
    assert_eq!(dying.speed, AnimationSpeed::Paused);
    let hurt = update_goblin_sprite_animation(CreatureState::Attack(AttackPhase::Strike), true, false, GoblinFacing::Up)
        .unwrap();
    assert_eq!(hurt.name, "hurt_up");
    assert_eq!(hurt.speed, AnimationSpeed::Normal);
    let dead = update_goblin_sprite_animation(CreatureState::Dead, false, false, GoblinFacing::Left).unwrap();
    assert_eq!(dead.name, "hurt_left");
    assert_eq!(dead.speed, AnimationSpeed::Paused);
}

#[test]
fn patrolling_goblin_keeps_its_animation() {
    assert!(update_goblin_sprite_animation(CreatureState::Patrol, false, false, GoblinFacing::Up).is_none());
}

#[test]
fn default_bindings() {
    let b = InputBindings::default();
    assert_eq!(b.get(GameAction::MoveUp), Some(InputBinding::Key(BoundKey::KeyW)));
    assert_eq!(b.get(GameAction::Attack), Some(InputBinding::Mouse(BoundMouseButton::Left)));
    assert_eq!(b.get(GameAction::Block), Some(InputBinding::Mouse(BoundMouseButton::Right)));
    assert_eq!(b.get(GameAction::Hotbar3), Some(InputBinding::Key(BoundKey::Digit3)));
    assert_eq!(b.get(GameAction::Pause), Some(InputBinding::Key(BoundKey::Escape)));
    assert_eq!(b.get(GameAction::InventoryPickup), Some(InputBinding::Mouse(BoundMouseButton::Left)));
}

#[test]
fn hotbar_actions_in_slot_order() {
    assert_eq!(hotbar_action(0), GameAction::Hotbar1);
    assert_eq!(hotbar_action(4), GameAction::Hotbar5);
}

#[test]
fn arc_indices_for_sixteen_segments() {
    let idx = arc_mesh_indices(16);
    assert_eq!(idx.len(), 96);
    assert_eq!(&idx[0..6], &[0, 2, 1, 1, 2, 3]);
    assert_eq!(&idx[90..96], &[30, 32, 31, 31, 32, 33]);
    assert!(idx.iter().all(|&i| i < 34));
    assert!(arc_mesh_indices(0).is_empty());
}

#[test]
fn quad_indices_for_pentagram() {
    let idx = quad_mesh_indices(37);
    assert_eq!(idx.len(), 222);
    assert_eq!(&idx[0..6], &[0, 1, 2, 0, 2, 3]);
    assert_eq!(&idx[6..12], &[4, 5, 6, 4, 6, 7]);
    assert!(idx.iter().all(|&i| i < 148));
}

#[test]
fn wave_spawns_pairs_until_done() {
    let mut wave = WaveSpawnState::default();
    assert!(!wave.wants_spawn());
    assert!(wave.trigger());
    assert!(!wave.trigger());
    let mut rows = Vec::new();
    while wave.wants_spawn() {
        let step = wave.spawn_pair();
        assert!(step.left && step.right);
        rows.push(step.row);
    }
    assert_eq!(rows, vec![0, 1, 2, 3]);
    assert_eq!(wave.spawned_left, WAVE_GOBLINS_PER_SIDE);
    assert_eq!(wave.spawned_right, WAVE_GOBLINS_PER_SIDE);
    let extra = wave.spawn_pair();
    assert!(!extra.left && !extra.right);
    assert_eq!(wave.spawned_left, 4);
}

#[test]
fn uneven_wave_catches_up() {
    let mut wave = WaveSpawnState { triggered: true, spawned_left: 4, spawned_right: 2 };
    assert!(wave.wants_spawn());
    let step = wave.spawn_pair();
    assert!(!step.left && step.right);
    assert_eq!(step.row, 4);
    assert_eq!(wave.spawned_right, 3);
}

#[test]
fn steering_defaults() {
    assert_eq!(SteeringStrategy::default(), SteeringStrategy::Direct);
    assert_eq!(NUM_DIRECTIONS, 8);
}
