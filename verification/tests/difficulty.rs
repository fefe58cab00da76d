//! The difficulty director's alternating growth.

use space_commander::difficulty::EnemyStats;
use space_commander::economy::PlayerStats;

#[test]
fn initial_director_state() {
    let d = EnemyStats::new();
    assert_eq!(d.speed, 30_000);
    assert_eq!(d.time_between_waves_ms, 15_000);
    assert_eq!(d.amount_to_spawn_a_wave, 1);
    assert_eq!(d.difficulty_level, 1);
    assert!(!d.upgrade_wave);
}

#[test]
fn first_tick_only_arms_the_toggle() {
    let mut d = EnemyStats::new();
    d.tick(0);
    assert!(d.upgrade_wave);
    assert_eq!(d.speed, 30_000);
    assert_eq!(d.time_between_waves_ms, 15_000);
    assert_eq!(d.amount_to_spawn_a_wave, 1);
    assert_eq!(d.difficulty_level, 1);
}

#[test]
fn ordinary_growth_step() {
    let mut d = EnemyStats::new();
    d.tick(0);
    d.tick(0);
    assert!(!d.upgrade_wave);
    assert_eq!(d.speed, 30_500);
    assert_eq!(d.time_between_waves_ms, 14_900);
    assert_eq!(d.amount_to_spawn_a_wave, 2);
    assert_eq!(d.difficulty_level, 2);
    // Derived micro-wave values: 14.9 s over 2 enemies.
    assert_eq!(d.time_between_microwaves_ms, 7_450);
    assert_eq!(d.amount_to_spawn_in_microwave, 1);
}

#[test]
fn milestone_doubles_wave_and_cuts_two_seconds() {
    // Five hundred spendable points are locked away, then one growth tick
    // fires: the milestone is hit.
    let mut stats = PlayerStats::new();
    stats.current_points = 500;
    stats.locked_score = 0;
    stats.lock_remaining_score();
    assert_eq!(stats.locked_score, 500);

    let mut d = EnemyStats::new();
    d.upgrade_wave = true;
    d.tick(stats.locked_score);
    assert_eq!(d.amount_to_spawn_a_wave, 2);
    assert_eq!(d.time_between_waves_ms, 13_000);
    assert_eq!(d.last_player_score_upgrade, 500);
    assert_eq!(d.speed, 30_500);
}

#[test]
fn below_milestone_grows_by_one() {
    let mut d = EnemyStats::new();
    d.upgrade_wave = true;
    d.tick(499);
    assert_eq!(d.amount_to_spawn_a_wave, 2);
    assert_eq!(d.time_between_waves_ms, 14_900);
    assert_eq!(d.last_player_score_upgrade, 0);
}

#[test]
fn wave_interval_floors_at_three_seconds() {
    let mut d = EnemyStats::new();
    d.time_between_waves_ms = 3_100;
    d.upgrade_wave = true;
    d.tick(0);
    assert_eq!(d.time_between_waves_ms, 3_000);
    d.upgrade_wave = true;
    d.tick(0);
    assert_eq!(d.time_between_waves_ms, 3_000);
}

#[test]
fn interval_never_grows_and_speed_never_falls() {
    let mut d = EnemyStats::new();
    let mut last_interval = d.time_between_waves_ms;
    let mut last_speed = d.speed;
    let mut locked: u32 = 0;
    for i in 0..200 {
        if i % 7 == 0 {
            locked = locked.saturating_add(300);
        }
        d.tick(locked);
        assert!(d.time_between_waves_ms <= last_interval);
        assert!(d.time_between_waves_ms >= 3_000);
        assert!(d.speed >= last_speed);
        last_interval = d.time_between_waves_ms;
        last_speed = d.speed;
    }
}
