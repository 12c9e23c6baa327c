use eggo::combat::apply_damage_to_player;
use eggo::death::{advance_death, DeathStep, Stats};
use eggo::loot::Loot;

#[test]
fn death_animation_stages() {
    assert_eq!(advance_death(0, false), (0, DeathStep::Animate));
    assert_eq!(advance_death(0, true), (1, DeathStep::BecomeCorpse));
    assert_eq!(advance_death(1, false), (1, DeathStep::Animate));
    assert_eq!(advance_death(1, true), (1, DeathStep::Finish));
    assert_eq!(advance_death(2, true), (2, DeathStep::Ignore));
}

#[test]
fn stats_collect_loot_and_reset() {
    let mut stats = Stats { philosophy: 1, nature_study: 0, wisdom: 3 };
    stats.collect(&Loot { philosophy: true, nature_study: true, wisdom: false });
    assert_eq!((stats.philosophy, stats.nature_study, stats.wisdom), (2, 1, 3));
    stats.reset();
    assert_eq!((stats.philosophy, stats.nature_study, stats.wisdom), (0, 0, 0));
}

#[test]
fn player_takes_damage_never_healed_by_negative_blow() {
    let mut health = 10;
    apply_damage_to_player(&mut health, 2);
    assert_eq!(health, 8);
    apply_damage_to_player(&mut health, 0);
    assert_eq!(health, 8);
    apply_damage_to_player(&mut health, -3);
    assert_eq!(health, 8);
}
