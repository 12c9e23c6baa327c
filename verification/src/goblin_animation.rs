use vstd::prelude::*;

use crate::creature_state::{AttackPhase, CreatureState};

verus! {

/// 4-way facing direction for goblin animations.
#[derive(Debug, Clone, Copy, PartialEq, Eq, Structural)]
pub enum GoblinFacing {
    Up,
    Down,
    Left,
    Right,
}

/// Which family of sprite animations a goblin plays.
#[derive(Debug, Clone, Copy, PartialEq, Eq, Structural)]
pub enum GoblinPose {
    Idle,
    Walk,
    Attack,
    Hurt,
}

/// Playback speed of a sprite animation: paused, half speed or normal speed.
#[derive(Debug, Clone, Copy, PartialEq, Eq, Structural)]
pub enum AnimationSpeed {
    Paused,
    Half,
    Normal,
}

/// The sprite animation a goblin should play.
pub struct GoblinAnimation {
    pub name: &'static str,
    pub pose: GoblinPose,
    pub speed: AnimationSpeed,
    pub flip_x: bool,
}

/// Name of the sprite animation of a pose seen from a facing direction.
pub open spec fn animation_name(pose: GoblinPose, facing: GoblinFacing) -> Seq<char> {
    match (pose, facing) {
        (GoblinPose::Idle, GoblinFacing::Up) => "idle_up"@,
        (GoblinPose::Idle, GoblinFacing::Down) => "idle_down"@,
        (GoblinPose::Idle, GoblinFacing::Left) => "idle_left"@,
        (GoblinPose::Idle, GoblinFacing::Right) => "idle_right"@,
        (GoblinPose::Walk, GoblinFacing::Up) => "walk_up"@,
        (GoblinPose::Walk, GoblinFacing::Down) => "walk_down"@,
        (GoblinPose::Walk, GoblinFacing::Left) => "walk_left"@,
        (GoblinPose::Walk, GoblinFacing::Right) => "walk_right"@,
        (GoblinPose::Attack, GoblinFacing::Up) => "att_up_1"@,
        (GoblinPose::Attack, GoblinFacing::Down) => "att_down_1"@,
        (GoblinPose::Attack, GoblinFacing::Left) => "att_left_1"@,
        (GoblinPose::Attack, GoblinFacing::Right) => "att_right_1"@,
        (GoblinPose::Hurt, GoblinFacing::Up) => "hurt_up"@,
        (GoblinPose::Hurt, GoblinFacing::Down) => "hurt_down"@,
        (GoblinPose::Hurt, GoblinFacing::Left) => "hurt_left"@,
        (GoblinPose::Hurt, GoblinFacing::Right) => "hurt_right"@,
    }
}

/// Pose and speed a goblin shows, by priority: its death animation (hurt, paused), then
/// being hurt (hurt, normal), then its behaviour state. `None` for a patrolling goblin,
/// whose animation is left as it is.
pub open spec fn goblin_pose_spec(state: CreatureState, hurt: bool, dying: bool) -> Option<(GoblinPose, AnimationSpeed)> {
    if dying {
        Some((GoblinPose::Hurt, AnimationSpeed::Paused))
    } else if hurt {
        Some((GoblinPose::Hurt, AnimationSpeed::Normal))
    } else {
        match state {
            CreatureState::Attack(AttackPhase::Strike) | CreatureState::Attack(AttackPhase::Recovery) => Some(
                (GoblinPose::Attack, AnimationSpeed::Normal),
            ),
            CreatureState::Attack(AttackPhase::WindUp) => Some((GoblinPose::Idle, AnimationSpeed::Half)),
            CreatureState::Chase => Some((GoblinPose::Walk, AnimationSpeed::Normal)),
            CreatureState::Idle | CreatureState::Stunned | CreatureState::Cooldown => Some(
                (GoblinPose::Idle, AnimationSpeed::Half),
            ),
            CreatureState::Dying | CreatureState::Dead => Some((GoblinPose::Hurt, AnimationSpeed::Paused)),
            CreatureState::Patrol => None,
        }
    }
}

/// Name of the sprite animation of a pose seen from a facing direction.
pub fn goblin_animation_name(pose: GoblinPose, facing: GoblinFacing) -> (r: &'static str)
    ensures
        r@ == animation_name(pose, facing),
{
    match (pose, facing) {
        (GoblinPose::Idle, GoblinFacing::Up) => "idle_up",
        (GoblinPose::Idle, GoblinFacing::Down) => "idle_down",
        (GoblinPose::Idle, GoblinFacing::Left) => "idle_left",
        (GoblinPose::Idle, GoblinFacing::Right) => "idle_right",
        (GoblinPose::Walk, GoblinFacing::Up) => "walk_up",
        (GoblinPose::Walk, GoblinFacing::Down) => "walk_down",
        (GoblinPose::Walk, GoblinFacing::Left) => "walk_left",
        (GoblinPose::Walk, GoblinFacing::Right) => "walk_right",
        (GoblinPose::Attack, GoblinFacing::Up) => "att_up_1",
        (GoblinPose::Attack, GoblinFacing::Down) => "att_down_1",
        (GoblinPose::Attack, GoblinFacing::Left) => "att_left_1",
        (GoblinPose::Attack, GoblinFacing::Right) => "att_right_1",
        (GoblinPose::Hurt, GoblinFacing::Up) => "hurt_up",
        (GoblinPose::Hurt, GoblinFacing::Down) => "hurt_down",
        (GoblinPose::Hurt, GoblinFacing::Left) => "hurt_left",
        (GoblinPose::Hurt, GoblinFacing::Right) => "hurt_right",
    }
}

/// Chooses a goblin's sprite animation from its behaviour state, whether it is hurt or
/// playing its death animation, and the direction it faces (toward the player).
/// Goblin sprites are never mirrored.
pub fn update_goblin_sprite_animation(
    state: CreatureState,
    hurt: bool,
    dying: bool,
    facing: GoblinFacing,
) -> (r: Option<GoblinAnimation>)
    ensures
        match goblin_pose_spec(state, hurt, dying) {
            Some((pose, speed)) => r matches Some(a) && a.pose == pose && a.speed == speed
                && a.name@ == animation_name(pose, facing) && !a.flip_x,
            None => r is None,
        },
{
    let choice = if dying {
        // Death animation takes highest priority - show hurt sprite and freeze
        Some((GoblinPose::Hurt, AnimationSpeed::Paused))
    } else if hurt {
        // Hurt animation takes priority
        Some((GoblinPose::Hurt, AnimationSpeed::Normal))
    } else {
        match state {
            CreatureState::Attack(AttackPhase::Strike) | CreatureState::Attack(AttackPhase::Recovery) => Some(
                (GoblinPose::Attack, AnimationSpeed::Normal),
            ),
            CreatureState::Attack(AttackPhase::WindUp) => Some((GoblinPose::Idle, AnimationSpeed::Half)),
            // Use directional walk animations
            CreatureState::Chase => Some((GoblinPose::Walk, AnimationSpeed::Normal)),
            // Use directional idle animations
            CreatureState::Idle | CreatureState::Stunned | CreatureState::Cooldown => Some(
                (GoblinPose::Idle, AnimationSpeed::Half),
            ),
            // Show hurt animation and pause on death
            CreatureState::Dying | CreatureState::Dead => Some((GoblinPose::Hurt, AnimationSpeed::Paused)),
            CreatureState::Patrol => None,
        }
    };
    match choice {
        Some((pose, speed)) => Some(
            GoblinAnimation { name: goblin_animation_name(pose, facing), pose, speed, flip_x: false },
        ),
        None => None,
    }
}

/// The word naming a pose at the start of its animation names.
pub open spec fn pose_word(pose: GoblinPose) -> Seq<char> {
    match pose {
        GoblinPose::Idle => "idle"@,
        GoblinPose::Walk => "walk"@,
        GoblinPose::Attack => "att"@,
        GoblinPose::Hurt => "hurt"@,
    }
}

/// The word naming a facing direction in animation names.
pub open spec fn facing_word(facing: GoblinFacing) -> Seq<char> {
    match facing {
        GoblinFacing::Up => "up"@,
        GoblinFacing::Down => "down"@,
        GoblinFacing::Left => "left"@,
        GoblinFacing::Right => "right"@,
    }
}

/// Every animation name starts with its pose word, an underscore and the word of the
/// direction the goblin faces: a goblin facing left plays a "..._left" animation.
pub proof fn lemma_animation_name_says_pose_and_facing(pose: GoblinPose, facing: GoblinFacing)
    ensures
        (pose_word(pose) + "_"@ + facing_word(facing)).is_prefix_of(animation_name(pose, facing)),
{
    reveal_strlit("idle");
    reveal_strlit("walk");
    reveal_strlit("att");
    reveal_strlit("hurt");
    reveal_strlit("_");
    reveal_strlit("up");
    reveal_strlit("down");
    reveal_strlit("left");
    reveal_strlit("right");
    reveal_strlit("idle_up");
    reveal_strlit("idle_down");
    reveal_strlit("idle_left");
    reveal_strlit("idle_right");
    reveal_strlit("walk_up");
    reveal_strlit("walk_down");
    reveal_strlit("walk_left");
    reveal_strlit("walk_right");
    reveal_strlit("att_up_1");
    reveal_strlit("att_down_1");
    reveal_strlit("att_left_1");
    reveal_strlit("att_right_1");
    reveal_strlit("hurt_up");
    reveal_strlit("hurt_down");
    reveal_strlit("hurt_left");
    reveal_strlit("hurt_right");
    let prefix = pose_word(pose) + "_"@ + facing_word(facing);
    let name = animation_name(pose, facing);
    assert(prefix.len() <= name.len());
    assert(prefix =~= name.subrange(0, prefix.len() as int));
}

/// Different poses, or different facings, never share an animation name.
pub proof fn lemma_animation_names_distinct(p1: GoblinPose, f1: GoblinFacing, p2: GoblinPose, f2: GoblinFacing)
    requires
        p1 != p2 || f1 != f2,
    ensures
        animation_name(p1, f1) != animation_name(p2, f2),
{
    lemma_animation_name_says_pose_and_facing(p1, f1);
    lemma_animation_name_says_pose_and_facing(p2, f2);
    reveal_strlit("idle");
    reveal_strlit("walk");
    reveal_strlit("att");
    reveal_strlit("hurt");
    reveal_strlit("_");
    reveal_strlit("up");
    reveal_strlit("down");
    reveal_strlit("left");
    reveal_strlit("right");
    let a = pose_word(p1) + "_"@ + facing_word(f1);
    let b = pose_word(p2) + "_"@ + facing_word(f2);
    if p1 != p2 {
        assert(a[0] != b[0]);
        assert(animation_name(p1, f1)[0] == a[0]);
        assert(animation_name(p2, f2)[0] == b[0]);
    } else {
        let k: int = pose_word(p1).len() as int + 1;
        assert(a[k] != b[k]);
        assert(animation_name(p1, f1)[k] == a[k]);
        assert(animation_name(p2, f2)[k] == b[k]);
    }
}

} // verus!
