//! Enemy and ghost lifecycles, planet impacts, the restart protocol and the
//! whole tick.

use space_commander::enemy::REVEAL_DURATION_MS;
use space_commander::events::{GameEvent, InputEvent};
use space_commander::geom::Vec2i;
use space_commander::spawner::SpawnField;
use space_commander::world::{ContactReports, GameWorld};

fn fresh_world() -> GameWorld {
    GameWorld::new(SpawnField::new(540_000))
}

#[test]
fn spawned_enemy_is_paired_with_a_ghost_at_its_spawn() {
    let mut w = fresh_world();
    w.spawn_wave();
    assert_eq!(w.enemies.len(), 1);
    assert_eq!(w.ghosts.len(), 1);
    let e = w.enemies[0].unwrap();
    let g = w.ghosts[e.ghost_id].unwrap();
    assert_eq!(g.pos, e.spawn);
    assert!(!g.enemy_gone);
    assert!(!e.visible);
    assert!(matches!(w.events.last(), Some(GameEvent::EnemySpawned(_))));
}

#[test]
fn wave_size_drives_the_spawn_count() {
    let mut w = fresh_world();
    w.enemy_stats.amount_to_spawn_a_wave = 4;
    w.spawn_wave();
    assert_eq!(w.enemies.len(), 4);
    assert_eq!(w.ghosts.len(), 4);
    assert_eq!(w.events.len(), 4);
}

#[test]
fn enemies_fly_straight_at_the_planet() {
    let mut w = fresh_world();
    w.spawn_wave();
    let e0 = w.enemies[0].unwrap();
    let start = e0.position();
    assert_eq!(start, e0.spawn);
    w.move_enemies(1_000);
    let e1 = w.enemies[0].unwrap();
    let after = e1.position();
    // Closer to the origin on every axis it moves along.
    assert!(after.x.abs() <= start.x.abs());
    assert!(after.y.abs() <= start.y.abs());
    assert!(after != start);
}

#[test]
fn scanned_enemy_reveals_for_exactly_its_duration() {
    let mut w = fresh_world();
    w.spawn_wave();
    assert!(w.fire_scan());
    // The oracle reports a contact start between scan 0 and enemy 0.
    w.apply_scan_contacts(&vec![(0, 0)], &vec![]);
    assert!(w.enemies[0].unwrap().scanned);
    w.reveal_scanned_enemies();
    let e = w.enemies[0].unwrap();
    assert!(!e.scanned);
    assert!(e.visible);
    assert_eq!(e.reveal_timer_ms, Some(REVEAL_DURATION_MS));
    // The ghost tracked the enemy's position at the reveal.
    let g = w.ghosts[e.ghost_id].unwrap();
    assert_eq!(g.pos, e.position());
    // One millisecond short of the duration: still visible.
    w.visibility_pass((REVEAL_DURATION_MS - 1) as u32);
    let e = w.enemies[0].unwrap();
    assert!(e.visible);
    assert_eq!(e.reveal_timer_ms, Some(1));
    // On the exact duration the reveal ends and the timer is removed.
    w.visibility_pass(1);
    let e = w.enemies[0].unwrap();
    assert!(!e.visible);
    assert_eq!(e.reveal_timer_ms, None);
}

#[test]
fn scanned_ghost_of_a_dead_enemy_is_collected() {
    let mut w = fresh_world();
    w.spawn_wave();
    // A missile kill flags the ghost as collectable in the cleanup pass.
    assert!(w.fire_missile(Vec2i { x: 50_000, y: 0 }, false));
    w.apply_missile_contacts(&vec![(0, 0)]);
    w.destroyed_cleanup();
    assert!(w.enemies[0].is_none());
    let g = w.ghosts[0].unwrap();
    assert!(g.enemy_gone);
    // The next scan that touches the ghost clears it away.
    assert!(w.fire_scan());
    w.apply_scan_contacts(&vec![], &vec![(0, 0)]);
    assert!(w.ghosts[0].unwrap().scanned);
    w.resolve_scanned_ghosts();
    assert!(w.ghosts[0].is_none());
}

#[test]
fn scanned_ghost_of_a_live_enemy_just_clears_the_tag() {
    let mut w = fresh_world();
    w.spawn_wave();
    assert!(w.fire_scan());
    w.apply_scan_contacts(&vec![], &vec![(0, 0)]);
    w.resolve_scanned_ghosts();
    let g = w.ghosts[0].unwrap();
    assert!(!g.scanned);
    assert!(!g.enemy_gone);
}

#[test]
fn missile_kill_earns_the_per_kill_score() {
    let mut w = fresh_world();
    w.spawn_wave();
    assert!(w.fire_missile(Vec2i { x: 50_000, y: 0 }, false));
    w.apply_missile_contacts(&vec![(0, 0)]);
    let points_before = w.stats.current_points;
    let locked_before = w.stats.locked_score;
    w.destroyed_cleanup();
    assert_eq!(w.stats.current_points, points_before + 5);
    assert_eq!(w.stats.locked_score, locked_before + 5);
    assert!(matches!(w.events.last(), Some(GameEvent::ScoreChanged(5))));
}

#[test]
fn planet_impact_damages_and_despawns_both_halves() {
    let mut w = fresh_world();
    w.spawn_wave();
    assert_eq!(w.stats.current_health, 2);
    w.apply_planet_contacts(&vec![0]);
    assert!(w.enemies[0].is_none());
    assert!(w.ghosts[0].is_none());
    assert_eq!(w.stats.current_health, 1);
    assert!(matches!(w.events.last(), Some(GameEvent::PlanetDamaged)));
}

#[test]
fn health_running_out_announces_game_over() {
    let mut w = fresh_world();
    w.enemy_stats.amount_to_spawn_a_wave = 2;
    w.spawn_wave();
    w.apply_planet_contacts(&vec![0, 1]);
    assert_eq!(w.stats.current_health, 0);
    assert!(w.events.contains(&GameEvent::GameOver));
}

#[test]
fn restart_resets_everything_but_the_field() {
    let mut w = fresh_world();
    let field = w.field;
    w.spawn_wave();
    w.fire_missile(Vec2i { x: 50_000, y: 0 }, false);
    w.fire_scan();
    w.toggle_shield(true);
    w.stats.current_points = 7;
    w.restart();
    assert_eq!(w.field, field);
    assert_eq!(w.enemies.len(), 0);
    assert_eq!(w.ghosts.len(), 0);
    assert_eq!(w.missiles.len(), 0);
    assert_eq!(w.markers.len(), 0);
    assert_eq!(w.scans.len(), 0);
    assert_eq!(w.stats.current_points, 40_000);
    assert_eq!(w.stats.current_energy, 6);
    assert!(!w.shield.is_active);
    assert_eq!(w.events.len(), 0);
    // Running the restart twice leaves the same fresh state.
    w.restart();
    assert_eq!(w.stats.current_points, 40_000);
    assert_eq!(w.enemies.len(), 0);
}

#[test]
fn tick_consumes_inputs_and_drains_events() {
    let mut w = fresh_world();
    let inputs = vec![
        InputEvent::FireMissile(Vec2i { x: 100_000, y: 0 }),
        InputEvent::Scan,
        InputEvent::Shield(true),
    ];
    let contacts = ContactReports::none();
    let events = w.tick(16, &inputs, &contacts);
    assert_eq!(w.missiles.len(), 1);
    assert_eq!(w.scans.len(), 1);
    assert!(w.shield.is_active);
    // Missile, scan and shield-on cost one, two and one energy.
    assert_eq!(w.stats.current_energy, 2);
    // The tick's events were drained: none persists into the next tick.
    assert_eq!(w.events.len(), 0);
    let later = w.tick(16, &Vec::new(), &ContactReports::none());
    assert!(later.is_empty() || later.len() < events.len() + 1);
    assert_eq!(w.events.len(), 0);
}

#[test]
fn tick_spawns_a_wave_when_the_interval_elapses() {
    let mut w = fresh_world();
    // The first wave interval is fifteen seconds.
    let contacts = ContactReports::none();
    for _ in 0..14 {
        w.tick(1_000, &Vec::new(), &contacts);
    }
    assert_eq!(w.enemies.len(), 0);
    let events = w.tick(1_000, &Vec::new(), &contacts);
    assert_eq!(w.enemies.len(), 1);
    assert!(events.iter().any(|e| matches!(e, GameEvent::EnemySpawned(_))));
}

#[test]
fn tick_trickles_score_and_recharges_energy() {
    let mut w = fresh_world();
    w.stats.current_energy = 0;
    w.stats.current_points = 0;
    let contacts = ContactReports::none();
    for _ in 0..4 {
        w.tick(1_000, &Vec::new(), &contacts);
    }
    // Four seconds: four trickle points and one energy recharge.
    assert_eq!(w.stats.current_points, 4);
    assert_eq!(w.stats.current_energy, 1);
}
