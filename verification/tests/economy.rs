//! The player economy: energy, health, the score pools and the upgrades.

use space_commander::economy::PlayerStats;

#[test]
fn initial_stats_match_defaults() {
    let s = PlayerStats::new();
    assert_eq!(s.current_energy, 6);
    assert_eq!(s.max_energy, 6);
    assert_eq!(s.current_health, 2);
    assert_eq!(s.max_health, 2);
    assert_eq!(s.current_points, 40_000);
    assert_eq!(s.locked_score, 0);
    assert_eq!(s.missile_energy_cost, 1);
    assert_eq!(s.scan_energy_cost, 2);
    assert_eq!(s.shield_energy_cost, 1);
    assert_eq!(s.shield_cost_interval_ms, 1_000);
    assert_eq!(s.enemy_kill_score, 5);
    assert!(s.is_regaining_energy);
    assert!(!s.is_cluster_missile_upgrade);
    assert!(!s.is_energy_vampire_upgrade);
    assert!(!s.is_dying_scanners_upgrade);
    assert!(!s.is_larger_missiles_upgrade);
}

#[test]
fn try_spend_score_never_succeeds_short() {
    let mut s = PlayerStats::new();
    s.current_points = 99;
    assert!(!s.try_spend_score(100));
    assert_eq!(s.current_points, 99);
    assert_eq!(s.all_time_score_count, 0);
}

#[test]
fn try_spend_score_takes_exactly_the_cost() {
    let mut s = PlayerStats::new();
    s.current_points = 100;
    assert!(s.try_spend_score(100));
    assert_eq!(s.current_points, 0);
    assert_eq!(s.all_time_score_count, 100);
    assert!(s.try_spend_score(0));
    assert_eq!(s.current_points, 0);
}

#[test]
fn lock_remaining_score_moves_everything_once() {
    let mut s = PlayerStats::new();
    s.current_points = 777;
    s.locked_score = 100;
    assert!(s.lock_remaining_score());
    assert_eq!(s.current_points, 0);
    assert_eq!(s.locked_score, 877);
    assert_eq!(s.all_time_score_count, 777);
    // A second lock in a row moves nothing.
    assert!(s.lock_remaining_score());
    assert_eq!(s.current_points, 0);
    assert_eq!(s.locked_score, 877);
    assert_eq!(s.all_time_score_count, 777);
}

#[test]
fn add_score_feeds_both_pools() {
    let mut s = PlayerStats::new();
    s.current_points = 0;
    s.add_score(7);
    assert_eq!(s.current_points, 7);
    assert_eq!(s.locked_score, 7);
}

#[test]
fn remove_score_clamps_at_zero() {
    let mut s = PlayerStats::new();
    s.current_points = 3;
    s.remove_score(10);
    assert_eq!(s.current_points, 0);
}

#[test]
fn damage_clamps_and_signals_defeat() {
    let mut s = PlayerStats::new();
    assert_eq!(s.current_health, 2);
    assert!(!s.damage());
    assert_eq!(s.current_health, 1);
    assert!(s.damage());
    assert_eq!(s.current_health, 0);
    // Already dead: still clamped at zero, still the terminal signal.
    assert!(s.damage());
    assert_eq!(s.current_health, 0);
}

#[test]
fn recharge_energy_clamps_at_max() {
    let mut s = PlayerStats::new();
    s.current_energy = 5;
    assert!(!s.recharge_energy());
    assert_eq!(s.current_energy, 6);
    assert!(s.recharge_energy());
    assert_eq!(s.current_energy, 6);
}

#[test]
fn energy_recharge_tick_fires_on_interval() {
    let mut s = PlayerStats::new();
    s.current_energy = 3;
    s.recharge_tick(3_999);
    assert_eq!(s.current_energy, 3);
    assert_eq!(s.energy_timer_ms, 3_999);
    s.recharge_tick(1);
    assert_eq!(s.current_energy, 4);
    assert_eq!(s.energy_timer_ms, 0);
}

#[test]
fn energy_recharge_skipped_while_shield_disables_regen() {
    let mut s = PlayerStats::new();
    s.current_energy = 3;
    s.is_regaining_energy = false;
    s.recharge_tick(10_000);
    assert_eq!(s.current_energy, 3);
    assert_eq!(s.energy_timer_ms, 0);
}

#[test]
fn health_recharge_tick_fires_on_interval() {
    let mut s = PlayerStats::new();
    s.current_health = 1;
    s.recharge_tick(29_999);
    assert_eq!(s.current_health, 1);
    s.recharge_tick(1);
    assert_eq!(s.current_health, 2);
    // At full health the timer no longer accrues.
    s.recharge_tick(50_000);
    assert_eq!(s.current_health, 2);
    assert_eq!(s.health_timer_ms, 0);
}

#[test]
fn time_score_trickles_one_point_per_second() {
    let mut s = PlayerStats::new();
    s.current_points = 0;
    s.handle_time_score(999);
    assert_eq!(s.current_points, 0);
    s.handle_time_score(1);
    assert_eq!(s.current_points, 1);
    assert_eq!(s.locked_score, 1);
    assert_eq!(s.score_timer_ms, 0);
}

#[test]
fn upgrade_max_energy_spends_and_raises_cap() {
    let mut s = PlayerStats::new();
    s.current_points = 15;
    assert!(s.upgrade_max_energy());
    assert_eq!(s.max_energy, 7);
    assert_eq!(s.current_points, 0);
    assert_eq!(s.all_time_score_count, 15);
    assert!(!s.upgrade_max_energy());
    assert_eq!(s.max_energy, 7);
}

#[test]
fn upgrade_energy_charge_speed_floors() {
    let mut s = PlayerStats::new();
    s.current_points = 1_000_000;
    // 4000 -> 400 in steps of 200: eighteen successful purchases.
    let mut bought = 0;
    while s.upgrade_energy_charge_speed() {
        bought += 1;
    }
    assert_eq!(bought, 18);
    assert_eq!(s.energy_recharge_interval_ms, 400);
    assert!(s.check_energy_recharge_speed_maxed());
}

#[test]
fn upgrade_scan_speed_stops_at_cap() {
    let mut s = PlayerStats::new();
    s.current_points = 1_000_000;
    // 50 -> 200 in steps of 25: six purchases, never past the cap.
    let mut bought = 0;
    while s.upgrade_scan_speed() {
        bought += 1;
    }
    assert_eq!(bought, 6);
    assert_eq!(s.scan_speed, 200_000);
    assert!(s.check_scan_speed_maxed());
}

#[test]
fn upgrade_missile_speed_stops_at_cap() {
    let mut s = PlayerStats::new();
    s.current_points = 1_000_000;
    let mut bought = 0;
    while s.upgrade_missile_speed() {
        bought += 1;
    }
    assert_eq!(bought, 16);
    assert_eq!(s.missile_speed, 500_000);
    assert!(s.check_missile_speed_maxed());
}

#[test]
fn plus_current_health_requires_missing_health() {
    let mut s = PlayerStats::new();
    s.current_points = 100;
    assert!(!s.plus_current_health());
    s.current_health = 1;
    assert!(s.plus_current_health());
    assert_eq!(s.current_health, 2);
    assert_eq!(s.current_points, 85);
}

#[test]
fn upgrade_max_health_heals_one() {
    let mut s = PlayerStats::new();
    s.current_points = 20;
    s.current_health = 1;
    assert!(s.upgrade_max_health());
    assert_eq!(s.max_health, 3);
    assert_eq!(s.current_health, 2);
    assert_eq!(s.current_points, 0);
}

#[test]
fn one_shot_upgrades_are_idempotent() {
    let mut s = PlayerStats::new();
    s.current_points = 1_000;
    assert!(s.upgrade_cluster_missile());
    assert!(s.is_cluster_missile_upgrade);
    assert_eq!(s.current_points, 800);
    // Already owned: fails and spends nothing.
    assert!(!s.upgrade_cluster_missile());
    assert_eq!(s.current_points, 800);
    assert!(s.upgrade_energy_vampire());
    assert!(!s.upgrade_energy_vampire());
    assert!(s.upgrade_dying_scanners());
    assert!(!s.upgrade_dying_scanners());
    assert!(s.upgrade_larger_missiles());
    assert!(!s.upgrade_larger_missiles());
    assert_eq!(s.current_points, 200);
    assert_eq!(s.all_time_score_count, 800);
}

#[test]
fn upgrade_shield_time_lengthens_interval() {
    let mut s = PlayerStats::new();
    s.current_points = 10;
    assert!(s.upgrade_shield_time());
    assert_eq!(s.shield_cost_interval_ms, 2_000);
    assert!(!s.upgrade_shield_time());
}

#[test]
fn auto_scan_fires_on_its_interval() {
    let mut s = PlayerStats::new();
    assert!(!s.auto_scan_tick(10_000));
    s.toggle_auto_scan();
    assert!(s.is_auto_scan);
    assert!(!s.auto_scan_tick(4_999));
    assert!(s.auto_scan_tick(1));
    assert_eq!(s.auto_scan_timer_ms, 0);
}

#[test]
fn auto_scan_interval_clamps_to_bounds() {
    let mut s = PlayerStats::new();
    s.set_auto_scan_interval(500);
    assert_eq!(s.auto_scan_interval_ms, 1_000);
    s.set_auto_scan_interval(20_000);
    assert_eq!(s.auto_scan_interval_ms, 10_000);
    s.set_auto_scan_interval(7_000);
    assert_eq!(s.auto_scan_interval_ms, 7_000);
}

#[test]
fn tutorial_panel_cursor_clamps() {
    let mut s = PlayerStats::new();
    s.prev_tut_panel();
    assert_eq!(s.tutorial_panel, 0);
    for _ in 0..10 {
        s.next_tut_panel();
    }
    assert_eq!(s.tutorial_panel, s.max_tut_panel);
    s.prev_tut_panel();
    assert_eq!(s.tutorial_panel, s.max_tut_panel - 1);
}
