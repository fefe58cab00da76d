//! The three action pipelines and their entities, through the world.

use space_commander::economy::PlayerStats;
use space_commander::events::GameEvent;
use space_commander::geom::Vec2i;
use space_commander::missile::{MISSILE_EXPLOSION_MS, MISSILE_TOLERANCE};
use space_commander::shield::ShieldState;
use space_commander::spawner::SpawnField;
use space_commander::world::GameWorld;

fn fresh_world() -> GameWorld {
    GameWorld::new(SpawnField::new(540_000))
}

#[test]
fn six_missiles_then_a_seventh_fails() {
    let mut w = fresh_world();
    assert_eq!(w.stats.current_energy, 6);
    let target = Vec2i { x: 100_000, y: 50_000 };
    for _ in 0..6 {
        assert!(w.fire_missile(target, false));
    }
    assert_eq!(w.stats.current_energy, 0);
    assert!(!w.fire_missile(target, false));
    assert_eq!(w.stats.current_energy, 0);
    assert_eq!(w.missiles.len(), 6);
    assert_eq!(w.markers.len(), 6);
}

#[test]
fn free_missiles_always_fly() {
    let mut w = fresh_world();
    w.stats.current_energy = 0;
    assert!(w.fire_missile(Vec2i { x: 10_000, y: 0 }, true));
    assert_eq!(w.stats.current_energy, 0);
    assert_eq!(w.missiles.len(), 1);
}

#[test]
fn cluster_upgrade_fires_four_free_sub_missiles() {
    let mut w = fresh_world();
    w.stats.is_cluster_missile_upgrade = true;
    assert!(w.handle_fire_missile(Vec2i { x: 100_000, y: 0 }));
    assert_eq!(w.missiles.len(), 5);
    assert_eq!(w.stats.current_energy, 5);
    // The four sub-missiles aim at the axis offsets around the target.
    let lead = w.missiles[0].unwrap();
    assert_eq!(lead.target, Vec2i { x: 100_000, y: 0 });
    let up = w.missiles[1].unwrap();
    assert_eq!(up.target, Vec2i { x: 100_000, y: 20_000 });
    let down = w.missiles[2].unwrap();
    assert_eq!(down.target, Vec2i { x: 100_000, y: -20_000 });
    let right = w.missiles[3].unwrap();
    assert_eq!(right.target, Vec2i { x: 120_000, y: 0 });
    let left = w.missiles[4].unwrap();
    assert_eq!(left.target, Vec2i { x: 80_000, y: 0 });
    // Even with no energy for the lead, the sub-missiles still fly.
    w.stats.current_energy = 0;
    assert!(!w.handle_fire_missile(Vec2i { x: 100_000, y: 0 }));
    assert_eq!(w.missiles.len(), 9);
}

#[test]
fn missile_reaches_target_and_despawns_with_marker() {
    let mut w = fresh_world();
    // Base speed 100 units per second toward a point 100 units out.
    let target = Vec2i { x: 100_000, y: 0 };
    assert!(w.fire_missile(target, false));
    // After 949 ms it is 94.9 units out: outside the 5-unit box.
    w.update_missiles(949);
    let m = w.missiles[0].unwrap();
    assert!(!m.reached_target);
    // One more ms carries it to 95 units: within tolerance on both axes.
    w.update_missiles(1);
    let m = w.missiles[0].unwrap();
    assert!(m.reached_target);
    let pos = m.position();
    assert!((pos.x - target.x).abs() <= MISSILE_TOLERANCE);
    assert!((pos.y - target.y).abs() <= MISSILE_TOLERANCE);
    // The explosion lingers exactly its delay, then missile and marker go.
    w.update_missiles(MISSILE_EXPLOSION_MS as u32 - 1);
    assert!(w.missiles[0].is_some());
    assert!(w.markers[0].is_some());
    w.update_missiles(1);
    assert!(w.missiles[0].is_none());
    assert!(w.markers[0].is_none());
}

#[test]
fn missile_contact_destroys_enemy_and_forces_explosion() {
    let mut w = fresh_world();
    w.spawn_wave();
    assert_eq!(w.enemies.len(), 1);
    assert!(w.fire_missile(Vec2i { x: 50_000, y: 0 }, false));
    let kills = w.apply_missile_contacts(&vec![(0, 0)]);
    assert_eq!(kills.len(), 1);
    let e = w.enemies[0].unwrap();
    assert!(e.destroyed);
    let m = w.missiles[0].unwrap();
    assert!(m.reached_target);
    assert!(m.enemy_killed);
    assert!(matches!(w.events.last(), Some(GameEvent::EnemyKilled(_))));
}

#[test]
fn energy_vampire_refunds_on_kill_despawn() {
    let mut w = fresh_world();
    w.stats.is_energy_vampire_upgrade = true;
    w.spawn_wave();
    assert!(w.fire_missile(Vec2i { x: 50_000, y: 0 }, false));
    assert_eq!(w.stats.current_energy, 5);
    w.apply_missile_contacts(&vec![(0, 0)]);
    // The missile now explodes; after the delay it despawns and refunds one.
    w.update_missiles(MISSILE_EXPLOSION_MS as u32);
    assert!(w.missiles[0].is_none());
    assert_eq!(w.stats.current_energy, 6);
}

#[test]
fn free_sub_missiles_never_refund() {
    // The refund is granted only on the lead missile of a cluster: the free
    // sub-missiles carry no kill-refund plumbing.
    let mut w = fresh_world();
    w.stats.is_energy_vampire_upgrade = true;
    w.spawn_wave();
    assert!(w.fire_missile(Vec2i { x: 50_000, y: 0 }, true));
    assert_eq!(w.stats.current_energy, 6);
    w.apply_missile_contacts(&vec![(0, 0)]);
    assert!(w.missiles[0].unwrap().enemy_killed);
    // Leave room below the cap so a (wrong) refund would be visible.
    w.stats.current_energy = 3;
    w.update_missiles(MISSILE_EXPLOSION_MS as u32);
    assert!(w.missiles[0].is_none());
    assert_eq!(w.stats.current_energy, 3);
}

#[test]
fn scan_requires_and_spends_two_energy() {
    let mut w = fresh_world();
    assert!(w.fire_scan());
    assert_eq!(w.stats.current_energy, 4);
    assert_eq!(w.scans.len(), 1);
    let s = w.scans[0].unwrap();
    assert_eq!(s.radius_micro, 20_000_000);
    assert_eq!(s.max_radius_micro, 1_000_000_000);
    w.stats.current_energy = 1;
    assert!(!w.fire_scan());
    assert_eq!(w.stats.current_energy, 1);
    assert_eq!(w.scans.len(), 1);
}

#[test]
fn scan_at_base_speed_despawns_within_twenty_seconds() {
    let mut w = fresh_world();
    assert!(w.fire_scan());
    // At 50 units per second, 20 -> 1000 units takes 19.6 seconds. Tick at
    // 100 ms: alive through tick 195 (19.5 s), gone on tick 196.
    for _ in 0..195 {
        w.update_scans(100);
    }
    assert!(w.scans[0].is_some());
    w.update_scans(100);
    assert!(w.scans[0].is_none());
}

#[test]
fn scan_growth_follows_the_speed_stat() {
    let mut w = fresh_world();
    assert!(w.fire_scan());
    w.update_scans(1_000);
    let s = w.scans[0].unwrap();
    // 20 units plus one second at 50 units per second.
    assert_eq!(s.radius_micro, 70_000_000);
    assert_eq!(s.radius_milli(), 70_000);
}

#[test]
fn dying_scanners_burst_on_kills() {
    let mut w = fresh_world();
    w.stats.is_dying_scanners_upgrade = true;
    let loc = Vec2i { x: 30_000, y: 40_000 };
    w.handle_enemy_killed(&vec![loc]);
    assert_eq!(w.scans.len(), 1);
    let s = w.scans[0].unwrap();
    assert_eq!(s.center, loc);
    assert_eq!(s.max_radius_micro, 50_000_000);
}

#[test]
fn dying_scanners_respect_the_concurrency_cap() {
    let mut w = fresh_world();
    w.stats.is_dying_scanners_upgrade = true;
    w.stats.current_energy = u32::MAX;
    w.stats.max_energy = u32::MAX;
    for _ in 0..6 {
        assert!(w.fire_scan());
    }
    assert_eq!(w.scans.len(), 6);
    w.handle_enemy_killed(&vec![Vec2i { x: 0, y: 0 }]);
    assert_eq!(w.scans.len(), 6);
}

#[test]
fn without_the_upgrade_no_burst_spawns() {
    let mut w = fresh_world();
    w.handle_enemy_killed(&vec![Vec2i { x: 0, y: 0 }]);
    assert_eq!(w.scans.len(), 0);
}

#[test]
fn shield_toggle_spends_one_charge_and_stops_regen() {
    let mut w = fresh_world();
    w.toggle_shield(true);
    assert!(w.shield.is_active);
    assert!(w.shield.is_shield_active());
    assert!(!w.stats.is_regaining_energy);
    assert_eq!(w.stats.current_energy, 5);
    w.toggle_shield(false);
    assert!(!w.shield.is_active);
    assert!(w.stats.is_regaining_energy);
    assert_eq!(w.stats.current_energy, 5);
}

#[test]
fn shield_toggle_fails_without_energy() {
    let mut w = fresh_world();
    w.stats.current_energy = 0;
    w.toggle_shield(true);
    assert!(!w.shield.is_active);
    assert!(w.stats.is_regaining_energy);
}

#[test]
fn shield_upkeep_spends_while_it_can() {
    let mut w = fresh_world();
    w.toggle_shield(true);
    assert_eq!(w.stats.current_energy, 5);
    w.shield_upkeep(999);
    assert_eq!(w.stats.current_energy, 5);
    w.shield_upkeep(1);
    assert_eq!(w.stats.current_energy, 4);
    assert!(w.shield.is_active);
}

#[test]
fn shield_force_deactivates_when_energy_runs_out() {
    // Upkeep interval one second, a single point of energy: the toggle
    // itself spends it, and the first upkeep tick finds the pool empty.
    let mut w = fresh_world();
    w.stats.current_energy = 1;
    w.toggle_shield(true);
    assert!(w.shield.is_active);
    assert_eq!(w.stats.current_energy, 0);
    w.shield_upkeep(1_000);
    assert!(!w.shield.is_active);
    assert!(w.stats.is_regaining_energy);
    assert_eq!(w.stats.current_energy, 0);
    assert_eq!(w.shield, ShieldState { is_active: false, time_till_next_cost_ms: 1_000 });
}

#[test]
fn shield_kill_is_silent() {
    let mut w = fresh_world();
    w.spawn_wave();
    w.toggle_shield(true);
    let points_before = w.stats.current_points;
    w.apply_shield_contacts(&vec![0]);
    let e = w.enemies[0].unwrap();
    assert!(e.destroyed);
    assert!(e.shield_kill);
    let events_before = w.events.len();
    w.destroyed_cleanup();
    assert!(w.enemies[0].is_none());
    // No score and no score event for the shield's kill path.
    assert_eq!(w.stats.current_points, points_before);
    assert_eq!(w.events.len(), events_before);
}

#[test]
fn inactive_shield_ignores_contacts() {
    let mut w = fresh_world();
    w.spawn_wave();
    w.apply_shield_contacts(&vec![0]);
    assert!(!w.enemies[0].unwrap().destroyed);
}

#[test]
fn stats_are_shared_plainly() {
    // The economy object the world owns is the one the pipelines charge.
    let mut w = fresh_world();
    let standalone = PlayerStats::new();
    assert_eq!(w.stats.current_energy, standalone.current_energy);
    w.fire_missile(Vec2i { x: 10_000, y: 0 }, false);
    assert_eq!(w.stats.current_energy, standalone.current_energy - 1);
}
