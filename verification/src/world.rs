//! The whole simulation state and its tick. Entities live in arenas of
//! optional slots keyed by stable integer ids; paired entities (enemy and
//! ghost, missile and marker) reference each other by id, so a despawn
//! ordering mistake surfaces as a failed lookup, never as dangling state.
//! One `tick` runs the phases in their contractual order; raw overlap
//! reports come in from the outside physics oracle as plain id pairs.

use crate::difficulty::EnemyStats;
use crate::economy::PlayerStats;
use crate::enemy::{Enemy, GhostMarker, REVEAL_DURATION_MS};
use crate::events::{GameEvent, InputEvent};
use crate::geom::Vec2i;
use crate::missile::{Missile, TargetMarker, CLUSTER_OFFSET, LARGER_CLUSTER_OFFSET};
use crate::scanner::{
    Scan, DYING_SCAN_MAX_RADIUS_MICRO, MAX_CONCURRENT_DYING_SCANS, SCAN_MAX_RADIUS_MICRO,
};
use crate::shield::ShieldState;
use crate::spawner::SpawnField;
use vstd::prelude::*;

verus! {

/// Cluster sub-missile targets must stay inside the coordinate bounds, so
/// fire targets keep this margin to them.
pub open spec fn target_in_range(p: Vec2i) -> bool {
    &&& -crate::geom::COORD_BOUND + LARGER_CLUSTER_OFFSET <= p.x
        <= crate::geom::COORD_BOUND - LARGER_CLUSTER_OFFSET
    &&& -crate::geom::COORD_BOUND + LARGER_CLUSTER_OFFSET <= p.y
        <= crate::geom::COORD_BOUND - LARGER_CLUSTER_OFFSET
}

/// Runtime check of `target_in_range`, for callers outside verified code.
pub fn target_in_range_check(p: Vec2i) -> (r: bool)
    ensures
        r == target_in_range(p),
{
    -crate::geom::COORD_BOUND + LARGER_CLUSTER_OFFSET <= p.x
        && p.x <= crate::geom::COORD_BOUND - LARGER_CLUSTER_OFFSET
        && -crate::geom::COORD_BOUND + LARGER_CLUSTER_OFFSET <= p.y
        && p.y <= crate::geom::COORD_BOUND - LARGER_CLUSTER_OFFSET
}

/// The overlap pairs the outside physics oracle reported for this tick, as
/// arena ids. Scan contacts are contact starts, not sustained overlaps.
pub struct ContactReports {
    pub missile_enemy: Vec<(usize, usize)>,
    pub scan_enemy: Vec<(usize, usize)>,
    pub scan_ghost: Vec<(usize, usize)>,
    pub shield_enemy: Vec<usize>,
    pub planet_enemy: Vec<usize>,
}

impl ContactReports {
    pub fn none() -> (c: ContactReports)
        ensures
            c.missile_enemy@ =~= Seq::<(usize, usize)>::empty(),
            c.scan_enemy@ =~= Seq::<(usize, usize)>::empty(),
            c.scan_ghost@ =~= Seq::<(usize, usize)>::empty(),
            c.shield_enemy@ =~= Seq::<usize>::empty(),
            c.planet_enemy@ =~= Seq::<usize>::empty(),
    {
        ContactReports {
            missile_enemy: Vec::new(),
            scan_enemy: Vec::new(),
            scan_ghost: Vec::new(),
            shield_enemy: Vec::new(),
            planet_enemy: Vec::new(),
        }
    }
}

/// True iff `slot` holds a freshly launched missile aimed at `target` with
/// the given speed and cost class, paired with marker `marker_id`.
pub open spec fn launched_at(
    slot: Option<Missile>,
    target: Vec2i,
    speed: u32,
    is_free: bool,
    marker_id: int,
) -> bool {
    slot matches Some(m) && m.wf() && m.target == target && m.speed == speed
        && m.flight_age_ms == 0 && !m.reached_target && m.explosion_age_ms == 0
        && !m.enemy_killed && m.is_free == is_free && m.marker_id == marker_id
}

/// A missile slot one tick later: a missile whose explosion delay elapses
/// leaves the arena; any other advances by `Missile::update_spec`.
pub open spec fn missile_step(o: Option<Missile>, dt: u32) -> Option<Missile> {
    match o {
        None => None,
        Some(m) => if m.despawn_spec(dt) {
            None
        } else {
            Some(m.update_spec(dt))
        },
    }
}

/// True iff some missile of `ms` despawns this tick and owns marker `j`.
pub open spec fn marker_freed(ms: Seq<Option<Missile>>, dt: u32, j: int) -> bool {
    exists|i: int|
        0 <= i < ms.len() && ((#[trigger] ms[i]) matches Some(m) && m.despawn_spec(dt)
            && m.marker_id == j)
}

/// How many of the first `upto` missiles earn an energy-vampire refund this
/// tick: despawning missiles whose kill flag is set, while the upgrade is
/// owned. A cluster sub-missile, fired free, carries no refund plumbing.
pub open spec fn refunds(ms: Seq<Option<Missile>>, dt: u32, vampire: bool, upto: int) -> int
    decreases upto,
{
    if upto <= 0 {
        0
    } else {
        refunds(ms, dt, vampire, upto - 1) + (if vampire && (ms[upto - 1] matches Some(m)
            && m.despawn_spec(dt) && m.enemy_killed && !m.is_free) {
            1int
        } else {
            0int
        })
    }
}

/// Extending the processed prefix by one slot frees exactly that slot's
/// marker (when its missile despawns) and no other.
proof fn lemma_marker_freed_extend(ms: Seq<Option<Missile>>, dt: u32, i: int)
    requires
        0 <= i < ms.len(),
    ensures
        forall|j: int|
            marker_freed(ms.take(i), dt, j) ==> marker_freed(ms.take(i + 1), dt, j),
        forall|j: int|
            marker_freed(ms.take(i + 1), dt, j) ==> (marker_freed(ms.take(i), dt, j) || (
            ms[i] matches Some(m) && m.despawn_spec(dt) && m.marker_id == j)),
        (ms[i] matches Some(m) && m.despawn_spec(dt)) ==> marker_freed(
            ms.take(i + 1),
            dt,
            (ms[i]->Some_0).marker_id as int,
        ),
{
    assert forall|j: int|
        marker_freed(ms.take(i), dt, j) implies marker_freed(ms.take(i + 1), dt, j) by {
        let k = choose|k: int|
            0 <= k < ms.take(i).len() && ((#[trigger] ms.take(i)[k]) matches Some(m)
                && m.despawn_spec(dt) && m.marker_id == j);
        assert(ms.take(i + 1)[k] == ms.take(i)[k]);
    }
    assert forall|j: int|
        marker_freed(ms.take(i + 1), dt, j) implies (marker_freed(ms.take(i), dt, j) || (
    ms[i] matches Some(m) && m.despawn_spec(dt) && m.marker_id == j)) by {
        let k = choose|k: int|
            0 <= k < ms.take(i + 1).len() && ((#[trigger] ms.take(i + 1)[k]) matches Some(m)
                && m.despawn_spec(dt) && m.marker_id == j);
        if k < i {
            assert(ms.take(i)[k] == ms.take(i + 1)[k]);
        } else {
            assert(ms.take(i + 1)[k] == ms[i]);
        }
    }
    if ms[i] matches Some(m) && m.despawn_spec(dt) {
        assert(ms.take(i + 1)[i] == ms[i]);
    }
}

/// The complete simulation state.
pub struct GameWorld {
    pub stats: PlayerStats,
    pub enemy_stats: EnemyStats,
    pub field: SpawnField,
    pub shield: ShieldState,
    pub enemies: Vec<Option<Enemy>>,
    pub ghosts: Vec<Option<GhostMarker>>,
    pub missiles: Vec<Option<Missile>>,
    pub markers: Vec<Option<TargetMarker>>,
    pub scans: Vec<Option<Scan>>,
    /// Time accrued toward the difficulty director's next (re-armed) tick.
    pub difficulty_timer_ms: u64,
    /// Time accrued toward the next wave.
    pub wave_timer_ms: u64,
    /// This tick's outbound events; drained by `tick`, never persistent.
    pub events: Vec<GameEvent>,
}

impl GameWorld {
    /// Every alive enemy is well-formed and points at an existing ghost
    /// slot, and no two alive enemies share a ghost.
    pub open spec fn enemies_wf(self) -> bool {
        &&& forall|i: int|
            0 <= i < self.enemies@.len() ==> ((#[trigger] self.enemies@[i]) matches Some(e)
                ==> e.wf() && e.ghost_id < self.ghosts@.len())
        &&& forall|i: int, j: int|
            0 <= i < j < self.enemies@.len() ==> (((#[trigger] self.enemies@[i]) is Some
                && (#[trigger] self.enemies@[j]) is Some) ==> self.enemies@[i]->Some_0.ghost_id
                != self.enemies@[j]->Some_0.ghost_id)
    }

    /// Every alive missile is well-formed and points at an existing marker
    /// slot, and no two alive missiles share a marker.
    pub open spec fn missiles_wf(self) -> bool {
        &&& forall|i: int|
            0 <= i < self.missiles@.len() ==> ((#[trigger] self.missiles@[i]) matches Some(m)
                ==> m.wf() && m.marker_id < self.markers@.len())
        &&& forall|i: int, j: int|
            0 <= i < j < self.missiles@.len() ==> (((#[trigger] self.missiles@[i]) is Some
                && (#[trigger] self.missiles@[j]) is Some) ==> self.missiles@[i]->Some_0.marker_id
                != self.missiles@[j]->Some_0.marker_id)
    }

    pub open spec fn scans_wf(self) -> bool {
        forall|i: int|
            0 <= i < self.scans@.len() ==> ((#[trigger] self.scans@[i]) matches Some(s) ==> s.wf())
    }

    pub open spec fn wf(self) -> bool {
        &&& self.stats.wf()
        &&& self.enemy_stats.wf()
        &&& self.field.wf()
        &&& self.enemies_wf()
        &&& self.missiles_wf()
        &&& self.scans_wf()
    }

    /// A fresh run over the given play field: default stats, no entities, no
    /// pending events, all timers at zero.
    pub fn new(field: SpawnField) -> (w: GameWorld)
        requires
            field.wf(),
        ensures
            w.wf(),
            w.stats == PlayerStats::initial(),
            w.enemy_stats == EnemyStats::initial(),
            w.field == field,
            w.shield == ShieldState::initial(),
            w.enemies@ =~= Seq::<Option<Enemy>>::empty(),
            w.ghosts@ =~= Seq::<Option<GhostMarker>>::empty(),
            w.missiles@ =~= Seq::<Option<Missile>>::empty(),
            w.markers@ =~= Seq::<Option<TargetMarker>>::empty(),
            w.scans@ =~= Seq::<Option<Scan>>::empty(),
            w.difficulty_timer_ms == 0,
            w.wave_timer_ms == 0,
            w.events@ =~= Seq::<GameEvent>::empty(),
    {
        GameWorld {
            stats: PlayerStats::new(),
            enemy_stats: EnemyStats::new(),
            field,
            shield: ShieldState::new(),
            enemies: Vec::new(),
            ghosts: Vec::new(),
            missiles: Vec::new(),
            markers: Vec::new(),
            scans: Vec::new(),
            difficulty_timer_ms: 0,
            wave_timer_ms: 0,
            events: Vec::new(),
        }
    }

    /// The restart protocol: put the stats, the director and the shield back
    /// to their defaults, despawn every enemy, ghost, missile (with its
    /// marker) and scan, and restart the timers. Only the play field
    /// survives. Running it twice is the same as running it once.
    pub fn restart(&mut self)
        requires
            old(self).field.wf(),
        ensures
            final(self).wf(),
            final(self).stats == PlayerStats::initial(),
            final(self).enemy_stats == EnemyStats::initial(),
            final(self).shield == ShieldState::initial(),
            final(self).field == old(self).field,
            final(self).enemies@ =~= Seq::<Option<Enemy>>::empty(),
            final(self).ghosts@ =~= Seq::<Option<GhostMarker>>::empty(),
            final(self).missiles@ =~= Seq::<Option<Missile>>::empty(),
            final(self).markers@ =~= Seq::<Option<TargetMarker>>::empty(),
            final(self).scans@ =~= Seq::<Option<Scan>>::empty(),
            final(self).difficulty_timer_ms == 0,
            final(self).wave_timer_ms == 0,
            final(self).events@ =~= Seq::<GameEvent>::empty(),
    {
        self.stats = PlayerStats::new();
        self.enemy_stats = EnemyStats::new();
        self.shield = ShieldState::new();
        self.enemies.clear();
        self.ghosts.clear();
        self.missiles.clear();
        self.markers.clear();
        self.scans.clear();
        self.difficulty_timer_ms = 0;
        self.wave_timer_ms = 0;
        self.events.clear();
    }

    // ------------------------------------------------------------------
    // Action resolution: the three gated pipelines' entry points.

    /// Fire one missile at `target`. A paid missile requires (and spends)
    /// the energy cost; a free one — a cluster sub-missile — always flies.
    /// On firing, the missile and its aim marker join the arenas, paired by
    /// id.
    pub fn fire_missile(&mut self, target: Vec2i, is_free: bool) -> (fired: bool)
        requires
            old(self).wf(),
            target.in_bounds(),
        ensures
            final(self).wf(),
            fired == (old(self).stats.current_energy >= old(self).stats.missile_energy_cost
                || is_free),
            !fired ==> *final(self) == *old(self),
            fired ==> {
                &&& final(self).missiles@.len() == old(self).missiles@.len() + 1
                &&& final(self).markers@.len() == old(self).markers@.len() + 1
                &&& forall|i: int|
                    0 <= i < old(self).missiles@.len() ==> final(self).missiles@[i]
                        == old(self).missiles@[i]
                &&& forall|i: int|
                    0 <= i < old(self).markers@.len() ==> final(self).markers@[i]
                        == old(self).markers@[i]
                &&& (final(self).missiles@.last() matches Some(m) && m.wf()
                    && m.target == target
                    && m.speed == old(self).stats.missile_speed
                    && m.flight_age_ms == 0
                    && !m.reached_target
                    && m.explosion_age_ms == 0
                    && !m.enemy_killed
                    && m.is_free == is_free
                    && m.marker_id == old(self).markers@.len())
                &&& final(self).markers@.last() == Some(TargetMarker { pos: target })
                &&& final(self).stats == (if is_free {
                    old(self).stats
                } else {
                    PlayerStats {
                        current_energy: (old(self).stats.current_energy
                            - old(self).stats.missile_energy_cost) as u32,
                        ..old(self).stats
                    }
                })
                &&& *final(self) == (GameWorld {
                    stats: final(self).stats,
                    missiles: final(self).missiles,
                    markers: final(self).markers,
                    ..*old(self)
                })
            },
            final(self).model() == fire_missile_spec(old(self).model(), target, is_free),
    {
        let can_pay = self.stats.check_if_enough_energy(self.stats.missile_energy_cost);
        let fired = if can_pay || is_free {
            if !is_free {
                self.stats.missile_fired();
            }
            let marker_id = self.markers.len();
            self.markers.push(Some(TargetMarker { pos: target }));
            let m = Missile::launch(target, self.stats.missile_speed, marker_id, is_free);
            self.missiles.push(Some(m));
            proof {
                assert forall|i: int, j: int|
                    0 <= i < j < self.missiles@.len() implies ((self.missiles@[i] is Some
                    && self.missiles@[j] is Some) ==> self.missiles@[i]->Some_0.marker_id
                    != self.missiles@[j]->Some_0.marker_id) by {
                    if j == self.missiles@.len() - 1 {
                        assert(self.missiles@[i] == old(self).missiles@[i]);
                    }
                }
            }
            true
        } else {
            false
        };
        proof {
            let spec_after = fire_missile_spec(old(self).model(), target, is_free);
            if fired {
                assert(self.missiles@ =~= spec_after.missiles);
                assert(self.markers@ =~= spec_after.markers);
            }
            assert(self.model() =~= spec_after);
        }
        fired
    }

    /// Resolve a fire-missile action: the lead missile flies if the energy
    /// cost can be paid, and if the cluster upgrade is owned, four free
    /// sub-missiles fly at the four axis offsets around the target whether
    /// or not the lead could pay.
    pub fn handle_fire_missile(&mut self, target: Vec2i) -> (fired: bool)
        requires
            old(self).wf(),
            target_in_range(target),
        ensures
            final(self).wf(),
            fired == (old(self).stats.current_energy >= old(self).stats.missile_energy_cost),
            final(self).missiles@.len() == old(self).missiles@.len() + (if fired {
                1int
            } else {
                0int
            }) + (if old(self).stats.is_cluster_missile_upgrade {
                4int
            } else {
                0int
            }),
            final(self).markers@.len() == old(self).markers@.len() + (if fired {
                1int
            } else {
                0int
            }) + (if old(self).stats.is_cluster_missile_upgrade {
                4int
            } else {
                0int
            }),
            forall|i: int|
                0 <= i < old(self).missiles@.len() ==> final(self).missiles@[i]
                    == old(self).missiles@[i],
            final(self).stats == (if fired {
                PlayerStats {
                    current_energy: (old(self).stats.current_energy
                        - old(self).stats.missile_energy_cost) as u32,
                    ..old(self).stats
                }
            } else {
                old(self).stats
            }),
            // The appended missiles, outright: the lead (when paid for) at
            // the target itself, and with the cluster upgrade four free
            // sub-missiles at the four axis offsets around it, each paired
            // with a fresh marker at its own aim point.
            ({
                let base = old(self).missiles@.len() as int;
                let mbase = old(self).markers@.len() as int;
                let lead = if fired { 1int } else { 0int };
                let d = if old(self).stats.is_larger_missiles_upgrade {
                    LARGER_CLUSTER_OFFSET
                } else {
                    CLUSTER_OFFSET
                };
                let speed = old(self).stats.missile_speed;
                &&& (fired ==> launched_at(final(self).missiles@[base], target, speed, false, mbase)
                    && final(self).markers@[mbase] == Some(TargetMarker { pos: target }))
                &&& (old(self).stats.is_cluster_missile_upgrade ==> {
                    let up = Vec2i { x: target.x, y: (target.y + d) as i64 };
                    let down = Vec2i { x: target.x, y: (target.y - d) as i64 };
                    let right = Vec2i { x: (target.x + d) as i64, y: target.y };
                    let left = Vec2i { x: (target.x - d) as i64, y: target.y };
                    &&& launched_at(final(self).missiles@[base + lead], up, speed, true, mbase + lead)
                    &&& launched_at(
                        final(self).missiles@[base + lead + 1],
                        down,
                        speed,
                        true,
                        mbase + lead + 1,
                    )
                    &&& launched_at(
                        final(self).missiles@[base + lead + 2],
                        right,
                        speed,
                        true,
                        mbase + lead + 2,
                    )
                    &&& launched_at(
                        final(self).missiles@[base + lead + 3],
                        left,
                        speed,
                        true,
                        mbase + lead + 3,
                    )
                    &&& final(self).markers@[mbase + lead] == Some(TargetMarker { pos: up })
                    &&& final(self).markers@[mbase + lead + 1] == Some(TargetMarker { pos: down })
                    &&& final(self).markers@[mbase + lead + 2] == Some(TargetMarker { pos: right })
                    &&& final(self).markers@[mbase + lead + 3] == Some(TargetMarker { pos: left })
                })
            }),
            *final(self) == (GameWorld {
                stats: final(self).stats,
                missiles: final(self).missiles,
                markers: final(self).markers,
                ..*old(self)
            }),
            final(self).model() == handle_fire_missile_spec(old(self).model(), target),
    {
        let ghost m0 = self.model();
        let fired = self.fire_missile(target, false);
        if self.stats.is_cluster_missile_upgrade {
            let offset: i64 = if self.stats.is_larger_missiles_upgrade {
                LARGER_CLUSTER_OFFSET
            } else {
                CLUSTER_OFFSET
            };
            let ghost m1 = self.model();
            self.fire_missile(Vec2i { x: target.x, y: target.y + offset }, true);
            let ghost m2 = self.model();
            self.fire_missile(Vec2i { x: target.x, y: target.y - offset }, true);
            let ghost m3 = self.model();
            self.fire_missile(Vec2i { x: target.x + offset, y: target.y }, true);
            let ghost m4 = self.model();
            self.fire_missile(Vec2i { x: target.x - offset, y: target.y }, true);
            proof {
                assert(m1 == fire_missile_spec(m0, target, false));
                assert(self.model() == handle_fire_missile_spec(m0, target));
            }
        } else {
            proof {
                assert(self.model() == handle_fire_missile_spec(m0, target));
            }
        }
        fired
    }

    /// Despawn every missile whose explosion delay elapses this tick, with
    /// its marker and its energy-vampire refund; advance the rest.
    pub fn update_missiles(&mut self, dt: u32)
        requires
            old(self).wf(),
        ensures
            final(self).wf(),
            final(self).missiles@.len() == old(self).missiles@.len(),
            forall|i: int|
                0 <= i < old(self).missiles@.len() ==> final(self).missiles@[i]
                    == missile_step(old(self).missiles@[i], dt),
            final(self).markers@.len() == old(self).markers@.len(),
            forall|j: int|
                0 <= j < old(self).markers@.len() ==> final(self).markers@[j] == (if marker_freed(
                    old(self).missiles@,
                    dt,
                    j,
                ) {
                    None::<TargetMarker>
                } else {
                    old(self).markers@[j]
                }),
            final(self).stats == (PlayerStats {
                current_energy: final(self).stats.current_energy,
                ..old(self).stats
            }),
            final(self).stats.current_energy as int == vstd::math::min(
                old(self).stats.max_energy as int,
                old(self).stats.current_energy + refunds(
                    old(self).missiles@,
                    dt,
                    old(self).stats.is_energy_vampire_upgrade,
                    old(self).missiles@.len() as int,
                ),
            ),
            *final(self) == (GameWorld {
                stats: final(self).stats,
                missiles: final(self).missiles,
                markers: final(self).markers,
                ..*old(self)
            }),
            final(self).model() == update_missiles_spec(old(self).model(), dt),
    {
        let n = self.missiles.len();
        let ghost vampire = self.stats.is_energy_vampire_upgrade;
        let mut i: usize = 0;
        while i < n
            invariant
                old(self).wf(),
                vampire == old(self).stats.is_energy_vampire_upgrade,
                self.missiles@.len() == n == old(self).missiles@.len(),
                self.markers@.len() == old(self).markers@.len(),
                0 <= i <= n,
                forall|k: int|
                    0 <= k < i ==> self.missiles@[k] == missile_step(old(self).missiles@[k], dt),
                forall|k: int| i <= k < n ==> self.missiles@[k] == old(self).missiles@[k],
                forall|j: int|
                    0 <= j < self.markers@.len() ==> self.markers@[j] == (if marker_freed(
                        old(self).missiles@.take(i as int),
                        dt,
                        j,
                    ) {
                        None::<TargetMarker>
                    } else {
                        old(self).markers@[j]
                    }),
                self.stats == (PlayerStats {
                    current_energy: self.stats.current_energy,
                    ..old(self).stats
                }),
                self.stats.current_energy as int == vstd::math::min(
                    old(self).stats.max_energy as int,
                    old(self).stats.current_energy + refunds(
                        old(self).missiles@,
                        dt,
                        vampire,
                        i as int,
                    ),
                ),
                self.stats.wf(),
                *self == (GameWorld {
                    stats: self.stats,
                    missiles: self.missiles,
                    markers: self.markers,
                    ..*old(self)
                }),
            decreases n - i,
        {
            let ghost pre = old(self).missiles@.take(i as int);
            let ghost post = old(self).missiles@.take(i as int + 1);
            proof {
                assert(post.len() == i + 1);
                assert(forall|k: int| 0 <= k < i ==> post[k] == pre[k]);
                assert(post[i as int] == old(self).missiles@[i as int]);
            }
            match self.missiles[i] {
                Some(mut m) => {
                    let despawn = m.update(dt);
                    if despawn {
                        if self.stats.is_energy_vampire_upgrade && m.enemy_killed && !m.is_free {
                            self.stats.plus_one_energy();
                        }
                        self.markers[m.marker_id] = None;
                        self.missiles[i] = None;
                        proof {
                            lemma_marker_freed_extend(old(self).missiles@, dt, i as int);
                        }
                    } else {
                        self.missiles[i] = Some(m);
                        proof {
                            lemma_marker_freed_extend(old(self).missiles@, dt, i as int);
                        }
                    }
                },
                None => {
                    proof {
                        lemma_marker_freed_extend(old(self).missiles@, dt, i as int);
                    }
                },
            }
            proof {
                assert(refunds(old(self).missiles@, dt, vampire, i as int + 1) == refunds(
                    old(self).missiles@,
                    dt,
                    vampire,
                    i as int,
                ) + (if vampire && (old(self).missiles@[i as int] matches Some(m)
                    && m.despawn_spec(dt) && m.enemy_killed && !m.is_free) {
                    1int
                } else {
                    0int
                }));
            }
            i = i + 1;
        }
        proof {
            assert(old(self).missiles@.take(n as int) =~= old(self).missiles@);
            let spec_after = update_missiles_spec(old(self).model(), dt);
            assert(self.missiles@ =~= spec_after.missiles);
            assert(self.markers@ =~= spec_after.markers);
            assert(self.stats == spec_after.stats);
            assert(self.model() =~= spec_after);
        }
    }

    /// Resolve a scan action: requires and spends the scan energy cost, and
    /// on success a scan spawns at the planet with the full maximum radius.
    pub fn fire_scan(&mut self) -> (fired: bool)
        requires
            old(self).wf(),
        ensures
            final(self).wf(),
            fired == (old(self).stats.current_energy >= old(self).stats.scan_energy_cost),
            !fired ==> *final(self) == *old(self),
            fired ==> {
                &&& final(self).scans@ == old(self).scans@.push(
                    Some(Scan::spawned_spec(Vec2i::origin_spec(), SCAN_MAX_RADIUS_MICRO)),
                )
                &&& final(self).stats == (PlayerStats {
                    current_energy: (old(self).stats.current_energy
                        - old(self).stats.scan_energy_cost) as u32,
                    auto_scan_timer_ms: 0,
                    ..old(self).stats
                })
                &&& *final(self) == (GameWorld {
                    stats: final(self).stats,
                    scans: final(self).scans,
                    ..*old(self)
                })
            },
            final(self).model() == fire_scan_spec(old(self).model()),
    {
        let fired = if self.stats.check_if_enough_energy(self.stats.scan_energy_cost) {
            self.stats.scanner_fired();
            let s = Scan::new(Vec2i::origin(), SCAN_MAX_RADIUS_MICRO);
            self.scans.push(Some(s));
            true
        } else {
            false
        };
        proof {
            assert(self.model() =~= fire_scan_spec(old(self).model()));
        }
        fired
    }

    /// Apply a shield toggle request (see `ShieldState::toggle`): switching
    /// on requires one upkeep charge and disables energy regeneration;
    /// switching off re-enables regeneration immediately.
    pub fn toggle_shield(&mut self, on: bool)
        requires
            old(self).wf(),
        ensures
            final(self).wf(),
            *final(self) == (GameWorld {
                stats: final(self).stats,
                shield: final(self).shield,
                ..*old(self)
            }),
            final(self).shield == old(self).shield.toggle_spec(on, old(self).stats).0,
            final(self).stats == old(self).shield.toggle_spec(on, old(self).stats).1,
            final(self).model() == toggle_shield_spec(old(self).model(), on),
    {
        let mut shield = self.shield;
        shield.toggle(on, &mut self.stats);
        self.shield = shield;
        proof {
            assert(self.model() =~= toggle_shield_spec(old(self).model(), on));
        }
    }

    /// While the shield is active, run its upkeep timer (see
    /// `ShieldState::upkeep_tick`); inactive, nothing happens.
    pub fn shield_upkeep(&mut self, dt: u32)
        requires
            old(self).wf(),
        ensures
            final(self).wf(),
            *final(self) == (GameWorld {
                stats: final(self).stats,
                shield: final(self).shield,
                ..*old(self)
            }),
            !old(self).shield.is_active ==> *final(self) == *old(self),
            old(self).shield.is_active ==> {
                &&& final(self).shield == old(self).shield.upkeep_spec(dt, old(self).stats).0
                &&& final(self).stats == old(self).shield.upkeep_spec(dt, old(self).stats).1
            },
            final(self).model() == shield_upkeep_spec(old(self).model(), dt),
    {
        if self.shield.is_active {
            let mut shield = self.shield;
            shield.upkeep_tick(dt, &mut self.stats);
            self.shield = shield;
        }
        proof {
            assert(self.model() =~= shield_upkeep_spec(old(self).model(), dt));
        }
    }

    // ------------------------------------------------------------------
    // Per-tick entity passes.

    /// Grow every scan by one tick at the current scan-speed stat and
    /// despawn each one whose radius has reached its maximum.
    pub fn update_scans(&mut self, dt: u32)
        requires
            old(self).wf(),
        ensures
            final(self).wf(),
            final(self).scans@.len() == old(self).scans@.len(),
            forall|i: int|
                0 <= i < old(self).scans@.len() ==> final(self).scans@[i] == scan_step(
                    old(self).scans@[i],
                    dt,
                    old(self).stats.scan_speed,
                ),
            *final(self) == (GameWorld { scans: final(self).scans, ..*old(self) }),
            final(self).model() == update_scans_spec(old(self).model(), dt),
    {
        let n = self.scans.len();
        let speed = self.stats.scan_speed;
        let mut i: usize = 0;
        while i < n
            invariant
                old(self).wf(),
                speed == old(self).stats.scan_speed,
                self.scans@.len() == n == old(self).scans@.len(),
                0 <= i <= n,
                forall|k: int|
                    0 <= k < i ==> self.scans@[k] == scan_step(old(self).scans@[k], dt, speed),
                forall|k: int| i <= k < n ==> self.scans@[k] == old(self).scans@[k],
                *self == (GameWorld { scans: self.scans, ..*old(self) }),
            decreases n - i,
        {
            match self.scans[i] {
                Some(mut s) => {
                    let despawn = s.update(dt, speed);
                    if despawn {
                        self.scans[i] = None;
                    } else {
                        self.scans[i] = Some(s);
                    }
                },
                None => {},
            }
            i = i + 1;
        }
        proof {
            assert(self.scans@ =~= update_scans_spec(old(self).model(), dt).scans);
            assert(self.model() =~= update_scans_spec(old(self).model(), dt));
        }
    }

    /// Advance every enemy's flight by `dt` milliseconds.
    pub fn move_enemies(&mut self, dt: u32)
        requires
            old(self).wf(),
        ensures
            final(self).wf(),
            final(self).enemies@.len() == old(self).enemies@.len(),
            forall|i: int|
                0 <= i < old(self).enemies@.len() ==> final(self).enemies@[i] == enemy_moved(
                    old(self).enemies@[i],
                    dt,
                ),
            *final(self) == (GameWorld { enemies: final(self).enemies, ..*old(self) }),
            final(self).model() == move_enemies_spec(old(self).model(), dt),
    {
        let n = self.enemies.len();
        let mut i: usize = 0;
        while i < n
            invariant
                old(self).wf(),
                self.enemies@.len() == n == old(self).enemies@.len(),
                self.ghosts@.len() == old(self).ghosts@.len(),
                0 <= i <= n,
                forall|k: int|
                    0 <= k < i ==> self.enemies@[k] == enemy_moved(old(self).enemies@[k], dt),
                forall|k: int| i <= k < n ==> self.enemies@[k] == old(self).enemies@[k],
                *self == (GameWorld { enemies: self.enemies, ..*old(self) }),
            decreases n - i,
        {
            match self.enemies[i] {
                Some(mut e) => {
                    e.move_tick(dt);
                    self.enemies[i] = Some(e);
                },
                None => {},
            }
            i = i + 1;
        }
        proof {
            assert forall|i: int, j: int|
                0 <= i < j < self.enemies@.len() implies (((#[trigger] self.enemies@[i]) is Some
                && (#[trigger] self.enemies@[j]) is Some) ==> self.enemies@[i]->Some_0.ghost_id
                != self.enemies@[j]->Some_0.ghost_id) by {
                assert(self.enemies@[i] == enemy_moved(old(self).enemies@[i], dt));
                assert(self.enemies@[j] == enemy_moved(old(self).enemies@[j], dt));
            }
            assert(self.enemies@ =~= move_enemies_spec(old(self).model(), dt).enemies);
            assert(self.model() =~= move_enemies_spec(old(self).model(), dt));
        }
    }

    /// Tick every revealed enemy's reveal timer down; on elapsing, the enemy
    /// turns invisible again and the timer is removed.
    pub fn visibility_pass(&mut self, dt: u32)
        requires
            old(self).wf(),
        ensures
            final(self).wf(),
            final(self).enemies@.len() == old(self).enemies@.len(),
            forall|i: int|
                0 <= i < old(self).enemies@.len() ==> final(self).enemies@[i] == enemy_vis_ticked(
                    old(self).enemies@[i],
                    dt,
                ),
            *final(self) == (GameWorld { enemies: final(self).enemies, ..*old(self) }),
            final(self).model() == visibility_spec(old(self).model(), dt),
    {
        let n = self.enemies.len();
        let mut i: usize = 0;
        while i < n
            invariant
                old(self).wf(),
                self.enemies@.len() == n == old(self).enemies@.len(),
                self.ghosts@.len() == old(self).ghosts@.len(),
                0 <= i <= n,
                forall|k: int|
                    0 <= k < i ==> self.enemies@[k] == enemy_vis_ticked(old(self).enemies@[k], dt),
                forall|k: int| i <= k < n ==> self.enemies@[k] == old(self).enemies@[k],
                *self == (GameWorld { enemies: self.enemies, ..*old(self) }),
            decreases n - i,
        {
            match self.enemies[i] {
                Some(mut e) => {
                    e.visibility_tick(dt);
                    self.enemies[i] = Some(e);
                },
                None => {},
            }
            i = i + 1;
        }
        proof {
            assert forall|i: int, j: int|
                0 <= i < j < self.enemies@.len() implies (((#[trigger] self.enemies@[i]) is Some
                && (#[trigger] self.enemies@[j]) is Some) ==> self.enemies@[i]->Some_0.ghost_id
                != self.enemies@[j]->Some_0.ghost_id) by {
                assert(self.enemies@[i] == enemy_vis_ticked(old(self).enemies@[i], dt));
                assert(self.enemies@[j] == enemy_vis_ticked(old(self).enemies@[j], dt));
            }
            assert(self.enemies@ =~= visibility_spec(old(self).model(), dt).enemies);
            assert(self.model() =~= visibility_spec(old(self).model(), dt));
        }
    }

    /// Recount the live enemies into the director's counter (saturated at
    /// the counter's type).
    pub fn update_enemy_count(&mut self)
        requires
            old(self).wf(),
        ensures
            final(self).wf(),
            final(self).enemy_stats == (EnemyStats {
                current_enemy_amount: final(self).enemy_stats.current_enemy_amount,
                ..old(self).enemy_stats
            }),
            final(self).enemy_stats.current_enemy_amount as int == vstd::math::min(
                alive_enemies(old(self).enemies@, old(self).enemies@.len() as int),
                u32::MAX as int,
            ),
            *final(self) == (GameWorld { enemy_stats: final(self).enemy_stats, ..*old(self) }),
            final(self).model() == count_spec(old(self).model()),
    {
        let n = self.enemies.len();
        let mut count: u32 = 0;
        let mut i: usize = 0;
        while i < n
            invariant
                self.enemies@.len() == n,
                0 <= i <= n,
                count as int == vstd::math::min(alive_enemies(self.enemies@, i as int), u32::MAX as int),
                *self == *old(self),
            decreases n - i,
        {
            match self.enemies[i] {
                Some(_) => {
                    count = count.saturating_add(1);
                },
                None => {},
            }
            proof {
                assert(alive_enemies(self.enemies@, i as int + 1) == alive_enemies(
                    self.enemies@,
                    i as int,
                ) + (if self.enemies@[i as int] is Some {
                    1int
                } else {
                    0int
                }));
            }
            i = i + 1;
        }
        self.enemy_stats.current_enemy_amount = count;
        proof {
            assert(self.model() =~= count_spec(old(self).model()));
        }
    }

    /// Adjudicate the missile-enemy overlaps the oracle reported: for every
    /// pair naming an alive missile and an alive enemy, the enemy is marked
    /// destroyed, the missile is forced into its explosion with its kill
    /// flag set, and an enemy-killed event is emitted at the enemy's
    /// position.
    pub fn apply_missile_contacts(&mut self, pairs: &Vec<(usize, usize)>) -> (kills: Vec<Vec2i>)
        requires
            old(self).wf(),
        ensures
            final(self).wf(),
            kills@ == kill_positions(
                pairs@,
                old(self).missiles@,
                old(self).enemies@,
                pairs@.len() as int,
            ),
            forall|k: int| 0 <= k < kills@.len() ==> (#[trigger] kills@[k]).in_bounds(),
            final(self).enemies@.len() == old(self).enemies@.len(),
            final(self).missiles@.len() == old(self).missiles@.len(),
            forall|j: int|
                0 <= j < old(self).enemies@.len() ==> final(self).enemies@[j] == enemy_after_hit(
                    old(self).enemies@[j],
                    enemy_hit(pairs@, old(self).missiles@, j),
                ),
            forall|j: int|
                0 <= j < old(self).missiles@.len() ==> final(self).missiles@[j]
                    == missile_after_hit(
                    old(self).missiles@[j],
                    missile_hit(pairs@, old(self).enemies@, j),
                ),
            final(self).events@ == old(self).events@ + kill_events(
                pairs@,
                old(self).missiles@,
                old(self).enemies@,
                pairs@.len() as int,
            ),
            *final(self) == (GameWorld {
                enemies: final(self).enemies,
                missiles: final(self).missiles,
                events: final(self).events,
                ..*old(self)
            }),
            final(self).model() == apply_missile_contacts_spec(old(self).model(), pairs@),
    {
        let mut kills: Vec<Vec2i> = Vec::new();
        let n = pairs.len();
        let mut k: usize = 0;
        while k < n
            invariant
                old(self).wf(),
                n == pairs@.len(),
                0 <= k <= n,
                kills@ == kill_positions(pairs@, old(self).missiles@, old(self).enemies@, k as int),
                forall|w: int| 0 <= w < kills@.len() ==> (#[trigger] kills@[w]).in_bounds(),
                self.enemies@.len() == old(self).enemies@.len(),
                self.missiles@.len() == old(self).missiles@.len(),
                self.markers@.len() == old(self).markers@.len(),
                forall|j: int|
                    0 <= j < old(self).enemies@.len() ==> self.enemies@[j] == enemy_after_hit(
                        old(self).enemies@[j],
                        enemy_hit(pairs@.take(k as int), old(self).missiles@, j),
                    ),
                forall|j: int|
                    0 <= j < old(self).missiles@.len() ==> self.missiles@[j] == missile_after_hit(
                        old(self).missiles@[j],
                        missile_hit(pairs@.take(k as int), old(self).enemies@, j),
                    ),
                self.events@ == old(self).events@ + kill_events(
                    pairs@,
                    old(self).missiles@,
                    old(self).enemies@,
                    k as int,
                ),
                *self == (GameWorld {
                    enemies: self.enemies,
                    missiles: self.missiles,
                    events: self.events,
                    ..*old(self)
                }),
            decreases n - k,
        {
            let (mid, eid) = pairs[k];
            if mid < self.missiles.len() && eid < self.enemies.len() {
                let missile_slot = self.missiles[mid];
                let enemy_slot = self.enemies[eid];
                match (missile_slot, enemy_slot) {
                    (Some(mut m), Some(mut e)) => {
                        proof {
                            assert(old(self).missiles@[mid as int] is Some);
                            assert(old(self).enemies@[eid as int] is Some);
                            assert(e.wf());
                        }
                        m.mark_hit();
                        self.missiles[mid] = Some(m);
                        e.destroyed = true;
                        let pos = e.position();
                        self.enemies[eid] = Some(e);
                        self.events.push(GameEvent::EnemyKilled(pos));
                        kills.push(pos);
                        proof {
                            let olde = old(self).enemies@[eid as int]->Some_0;
                            assert(e.pos_spec() == olde.pos_spec());
                        }
                    },
                    _ => {},
                }
            }
            proof {
                lemma_enemy_hit_extend(pairs@, old(self).missiles@, k as int);
                lemma_missile_hit_extend(pairs@, old(self).enemies@, k as int);
                assert(kill_events(
                    pairs@,
                    old(self).missiles@,
                    old(self).enemies@,
                    k as int + 1,
                ) == (if pairs@[k as int].0 < old(self).missiles@.len()
                    && old(self).missiles@[pairs@[k as int].0 as int] is Some
                    && pairs@[k as int].1 < old(self).enemies@.len()
                    && old(self).enemies@[pairs@[k as int].1 as int] is Some {
                    kill_events(pairs@, old(self).missiles@, old(self).enemies@, k as int).push(
                        GameEvent::EnemyKilled(
                            (old(self).enemies@[pairs@[k as int].1 as int]->Some_0).pos_spec(),
                        ),
                    )
                } else {
                    kill_events(pairs@, old(self).missiles@, old(self).enemies@, k as int)
                }));
                assert(kill_positions(
                    pairs@,
                    old(self).missiles@,
                    old(self).enemies@,
                    k as int + 1,
                ) == (if pairs@[k as int].0 < old(self).missiles@.len()
                    && old(self).missiles@[pairs@[k as int].0 as int] is Some
                    && pairs@[k as int].1 < old(self).enemies@.len()
                    && old(self).enemies@[pairs@[k as int].1 as int] is Some {
                    kill_positions(pairs@, old(self).missiles@, old(self).enemies@, k as int).push(
                        (old(self).enemies@[pairs@[k as int].1 as int]->Some_0).pos_spec(),
                    )
                } else {
                    kill_positions(pairs@, old(self).missiles@, old(self).enemies@, k as int)
                }));
            }
            k = k + 1;
        }
        proof {
            assert(pairs@.take(n as int) =~= pairs@);
            let spec_after = apply_missile_contacts_spec(old(self).model(), pairs@);
            assert(self.enemies@ =~= spec_after.enemies);
            assert(self.missiles@ =~= spec_after.missiles);
            assert(self.events@ =~= spec_after.events);
            assert(self.model() =~= spec_after);
        }
        kills
    }

    /// Adjudicate the scan contact starts the oracle reported: every enemy
    /// and every ghost first touched by an alive scan this tick is tagged
    /// scanned, for the reveal pass to consume.
    pub fn apply_scan_contacts(
        &mut self,
        enemy_pairs: &Vec<(usize, usize)>,
        ghost_pairs: &Vec<(usize, usize)>,
    )
        requires
            old(self).wf(),
        ensures
            final(self).wf(),
            final(self).enemies@.len() == old(self).enemies@.len(),
            final(self).ghosts@.len() == old(self).ghosts@.len(),
            forall|j: int|
                0 <= j < old(self).enemies@.len() ==> final(self).enemies@[j] == enemy_after_scan(
                    old(self).enemies@[j],
                    marked_by_pair(enemy_pairs@, old(self).scans@, j),
                ),
            forall|j: int|
                0 <= j < old(self).ghosts@.len() ==> final(self).ghosts@[j] == ghost_after_scan(
                    old(self).ghosts@[j],
                    marked_by_pair(ghost_pairs@, old(self).scans@, j),
                ),
            *final(self) == (GameWorld {
                enemies: final(self).enemies,
                ghosts: final(self).ghosts,
                ..*old(self)
            }),
            final(self).model() == apply_scan_contacts_spec(
                old(self).model(),
                enemy_pairs@,
                ghost_pairs@,
            ),
    {
        let n = enemy_pairs.len();
        let mut k: usize = 0;
        while k < n
            invariant
                old(self).wf(),
                n == enemy_pairs@.len(),
                0 <= k <= n,
                self.enemies@.len() == old(self).enemies@.len(),
                self.ghosts@.len() == old(self).ghosts@.len(),
                forall|j: int|
                    0 <= j < old(self).enemies@.len() ==> self.enemies@[j] == enemy_after_scan(
                        old(self).enemies@[j],
                        marked_by_pair(enemy_pairs@.take(k as int), old(self).scans@, j),
                    ),
                *self == (GameWorld { enemies: self.enemies, ..*old(self) }),
            decreases n - k,
        {
            let (sid, eid) = enemy_pairs[k];
            if sid < self.scans.len() && eid < self.enemies.len() {
                if self.scans[sid].is_some() {
                    match self.enemies[eid] {
                        Some(mut e) => {
                            e.scanned = true;
                            self.enemies[eid] = Some(e);
                        },
                        None => {},
                    }
                }
            }
            proof {
                lemma_marked_by_pair_extend(enemy_pairs@, old(self).scans@, k as int);
            }
            k = k + 1;
        }
        proof {
            assert(enemy_pairs@.take(n as int) =~= enemy_pairs@);
        }
        let gn = ghost_pairs.len();
        let mut gk: usize = 0;
        while gk < gn
            invariant
                old(self).wf(),
                gn == ghost_pairs@.len(),
                0 <= gk <= gn,
                self.enemies@.len() == old(self).enemies@.len(),
                self.ghosts@.len() == old(self).ghosts@.len(),
                forall|j: int|
                    0 <= j < old(self).enemies@.len() ==> self.enemies@[j] == enemy_after_scan(
                        old(self).enemies@[j],
                        marked_by_pair(enemy_pairs@, old(self).scans@, j),
                    ),
                forall|j: int|
                    0 <= j < old(self).ghosts@.len() ==> self.ghosts@[j] == ghost_after_scan(
                        old(self).ghosts@[j],
                        marked_by_pair(ghost_pairs@.take(gk as int), old(self).scans@, j),
                    ),
                *self == (GameWorld {
                    enemies: self.enemies,
                    ghosts: self.ghosts,
                    ..*old(self)
                }),
            decreases gn - gk,
        {
            let (sid, gid) = ghost_pairs[gk];
            if sid < self.scans.len() && gid < self.ghosts.len() {
                if self.scans[sid].is_some() {
                    match self.ghosts[gid] {
                        Some(mut g) => {
                            g.scanned = true;
                            self.ghosts[gid] = Some(g);
                        },
                        None => {},
                    }
                }
            }
            proof {
                lemma_marked_by_pair_extend(ghost_pairs@, old(self).scans@, gk as int);
            }
            gk = gk + 1;
        }
        proof {
            assert(ghost_pairs@.take(gn as int) =~= ghost_pairs@);
            assert forall|i: int, j: int|
                0 <= i < j < self.enemies@.len() implies (((#[trigger] self.enemies@[i]) is Some
                && (#[trigger] self.enemies@[j]) is Some) ==> self.enemies@[i]->Some_0.ghost_id
                != self.enemies@[j]->Some_0.ghost_id) by {
                assert(self.enemies@[i] == enemy_after_scan(
                    old(self).enemies@[i],
                    marked_by_pair(enemy_pairs@, old(self).scans@, i),
                ));
                assert(self.enemies@[j] == enemy_after_scan(
                    old(self).enemies@[j],
                    marked_by_pair(enemy_pairs@, old(self).scans@, j),
                ));
            }
            let spec_after = apply_scan_contacts_spec(old(self).model(), enemy_pairs@, ghost_pairs@);
            assert(self.enemies@ =~= spec_after.enemies);
            assert(self.ghosts@ =~= spec_after.ghosts);
            assert(self.model() =~= spec_after);
        }
    }

    /// Adjudicate the shield-enemy overlaps the oracle reported: while the
    /// shield is active, every listed alive enemy is destroyed silently —
    /// the shield's kill path earns no score. With the shield down the
    /// report is ignored.
    pub fn apply_shield_contacts(&mut self, enemy_ids: &Vec<usize>)
        requires
            old(self).wf(),
        ensures
            final(self).wf(),
            !old(self).shield.is_active ==> *final(self) == *old(self),
            final(self).enemies@.len() == old(self).enemies@.len(),
            old(self).shield.is_active ==> {
                &&& forall|j: int|
                    0 <= j < old(self).enemies@.len() ==> final(self).enemies@[j]
                        == enemy_after_shield(old(self).enemies@[j], id_listed(enemy_ids@, j))
                &&& *final(self) == (GameWorld { enemies: final(self).enemies, ..*old(self) })
            },
            final(self).model() == apply_shield_contacts_spec(old(self).model(), enemy_ids@),
    {
        if !self.shield.is_active {
            return ;
        }
        let n = enemy_ids.len();
        let mut k: usize = 0;
        while k < n
            invariant
                old(self).wf(),
                n == enemy_ids@.len(),
                0 <= k <= n,
                self.enemies@.len() == old(self).enemies@.len(),
                self.ghosts@.len() == old(self).ghosts@.len(),
                forall|j: int|
                    0 <= j < old(self).enemies@.len() ==> self.enemies@[j] == enemy_after_shield(
                        old(self).enemies@[j],
                        id_listed(enemy_ids@.take(k as int), j),
                    ),
                *self == (GameWorld { enemies: self.enemies, ..*old(self) }),
            decreases n - k,
        {
            let eid = enemy_ids[k];
            if eid < self.enemies.len() {
                match self.enemies[eid] {
                    Some(mut e) => {
                        e.destroyed = true;
                        e.shield_kill = true;
                        self.enemies[eid] = Some(e);
                    },
                    None => {},
                }
            }
            proof {
                lemma_id_listed_extend(enemy_ids@, k as int);
            }
            k = k + 1;
        }
        proof {
            assert(enemy_ids@.take(n as int) =~= enemy_ids@);
            assert forall|i: int, j: int|
                0 <= i < j < self.enemies@.len() implies (((#[trigger] self.enemies@[i]) is Some
                && (#[trigger] self.enemies@[j]) is Some) ==> self.enemies@[i]->Some_0.ghost_id
                != self.enemies@[j]->Some_0.ghost_id) by {
                assert(self.enemies@[i] == enemy_after_shield(
                    old(self).enemies@[i],
                    id_listed(enemy_ids@, i),
                ));
                assert(self.enemies@[j] == enemy_after_shield(
                    old(self).enemies@[j],
                    id_listed(enemy_ids@, j),
                ));
            }
            let spec_after = apply_shield_contacts_spec(old(self).model(), enemy_ids@);
            assert(self.enemies@ =~= spec_after.enemies);
            assert(self.model() =~= spec_after);
        }
    }

    /// Reveal every enemy tagged scanned: its ghost (if still alive) moves
    /// to the enemy's current position, the enemy turns visible, its reveal
    /// timer starts, and the tag is cleared.
    pub fn reveal_scanned_enemies(&mut self)
        requires
            old(self).wf(),
        ensures
            final(self).wf(),
            final(self).enemies@.len() == old(self).enemies@.len(),
            final(self).ghosts@.len() == old(self).ghosts@.len(),
            forall|i: int|
                0 <= i < old(self).enemies@.len() ==> final(self).enemies@[i] == enemy_after_reveal(
                    old(self).enemies@[i],
                ),
            forall|i: int|
                0 <= i < old(self).enemies@.len() ==> ((#[trigger] old(self).enemies@[i])
                    matches Some(e) ==> (e.scanned ==> final(self).ghosts@[e.ghost_id as int]
                    == ghost_retarget(old(self).ghosts@[e.ghost_id as int], e.pos_spec()))),
            forall|j: int|
                0 <= j < old(self).ghosts@.len() && !ghost_owner_where(
                    old(self).enemies@,
                    j,
                    |e: Enemy| e.scanned,
                ) ==> final(self).ghosts@[j] == old(self).ghosts@[j],
            *final(self) == (GameWorld {
                enemies: final(self).enemies,
                ghosts: final(self).ghosts,
                ..*old(self)
            }),
            final(self).model() == reveal_spec(old(self).model()),
    {
        let ghost scanned_pred = (|e: Enemy| e.scanned);
        let n = self.enemies.len();
        let mut i: usize = 0;
        while i < n
            invariant
                old(self).wf(),
                scanned_pred == (|e: Enemy| e.scanned),
                self.enemies@.len() == n == old(self).enemies@.len(),
                self.ghosts@.len() == old(self).ghosts@.len(),
                0 <= i <= n,
                forall|k: int|
                    0 <= k < i ==> self.enemies@[k] == enemy_after_reveal(old(self).enemies@[k]),
                forall|k: int| i <= k < n ==> self.enemies@[k] == old(self).enemies@[k],
                forall|k: int|
                    0 <= k < i ==> ((#[trigger] old(self).enemies@[k]) matches Some(e) ==> (
                        e.scanned ==> self.ghosts@[e.ghost_id as int] == ghost_retarget(
                        old(self).ghosts@[e.ghost_id as int],
                        e.pos_spec(),
                    ))),
                forall|j: int|
                    0 <= j < old(self).ghosts@.len() && !ghost_owner_where(
                        old(self).enemies@.take(i as int),
                        j,
                        scanned_pred,
                    ) ==> self.ghosts@[j] == old(self).ghosts@[j],
                *self == (GameWorld {
                    enemies: self.enemies,
                    ghosts: self.ghosts,
                    ..*old(self)
                }),
            decreases n - i,
        {
            match self.enemies[i] {
                Some(mut e) => {
                    if e.scanned {
                        let pos = e.position();
                        if e.ghost_id < self.ghosts.len() {
                            match self.ghosts[e.ghost_id] {
                                Some(mut g) => {
                                    g.pos = pos;
                                    self.ghosts[e.ghost_id] = Some(g);
                                },
                                None => {},
                            }
                        }
                        e.visible = true;
                        e.reveal_timer_ms = Some(REVEAL_DURATION_MS);
                        e.scanned = false;
                        self.enemies[i] = Some(e);
                        proof {
                            let olde = old(self).enemies@[i as int]->Some_0;
                            assert(e.pos_spec() == olde.pos_spec());
                            // Uniqueness: no earlier scanned enemy owns this
                            // ghost, so earlier retargets stay in place.
                            assert forall|k: int|
                                0 <= k < i && (#[trigger] old(self).enemies@[k]) is Some
                                    && (old(self).enemies@[k]->Some_0).scanned implies (old(
                                self,
                            ).enemies@[k]->Some_0).ghost_id != olde.ghost_id by {
                                assert(old(self).enemies@[k] is Some
                                    && old(self).enemies@[i as int] is Some);
                            }
                        }
                    }
                },
                None => {},
            }
            proof {
                lemma_ghost_owner_extend(old(self).enemies@, scanned_pred, i as int);
            }
            i = i + 1;
        }
        proof {
            assert(old(self).enemies@.take(n as int) =~= old(self).enemies@);
            assert forall|i2: int, j2: int|
                0 <= i2 < j2 < self.enemies@.len() implies (((#[trigger] self.enemies@[i2])
                is Some && (#[trigger] self.enemies@[j2]) is Some)
                ==> self.enemies@[i2]->Some_0.ghost_id != self.enemies@[j2]->Some_0.ghost_id) by {
                assert(self.enemies@[i2] == enemy_after_reveal(old(self).enemies@[i2]));
                assert(self.enemies@[j2] == enemy_after_reveal(old(self).enemies@[j2]));
            }
            let m0 = old(self).model();
            let spec_after = reveal_spec(m0);
            assert(self.enemies@ =~= spec_after.enemies);
            assert forall|j: int|
                0 <= j < self.ghosts@.len() implies self.ghosts@[j] == spec_after.ghosts[j] by {
                if ghost_owner_where(m0.enemies, j, |e: Enemy| e.scanned) {
                    let iw = choose|iw: int|
                        0 <= iw < m0.enemies.len() && ((#[trigger] m0.enemies[iw]) matches Some(e)
                            && e.scanned && e.ghost_id == j);
                    assert(old(self).enemies@[iw] is Some
                        && (old(self).enemies@[iw]->Some_0).scanned);
                }
            }
            assert(self.ghosts@ =~= spec_after.ghosts);
            assert(self.model() =~= spec_after);
        }
    }

    /// Resolve every ghost tagged scanned: one whose enemy is already gone
    /// is collected (despawns); one whose enemy still flies just drops the
    /// tag.
    pub fn resolve_scanned_ghosts(&mut self)
        requires
            old(self).wf(),
        ensures
            final(self).wf(),
            final(self).ghosts@.len() == old(self).ghosts@.len(),
            forall|j: int|
                0 <= j < old(self).ghosts@.len() ==> final(self).ghosts@[j] == ghost_resolved(
                    old(self).ghosts@[j],
                ),
            *final(self) == (GameWorld { ghosts: final(self).ghosts, ..*old(self) }),
            final(self).model() == resolve_ghosts_spec(old(self).model()),
    {
        let n = self.ghosts.len();
        let mut i: usize = 0;
        while i < n
            invariant
                old(self).wf(),
                self.ghosts@.len() == n == old(self).ghosts@.len(),
                self.enemies@.len() == old(self).enemies@.len(),
                0 <= i <= n,
                forall|k: int|
                    0 <= k < i ==> self.ghosts@[k] == ghost_resolved(old(self).ghosts@[k]),
                forall|k: int| i <= k < n ==> self.ghosts@[k] == old(self).ghosts@[k],
                *self == (GameWorld { ghosts: self.ghosts, ..*old(self) }),
            decreases n - i,
        {
            match self.ghosts[i] {
                Some(mut g) => {
                    if g.scanned {
                        if g.enemy_gone {
                            self.ghosts[i] = None;
                        } else {
                            g.scanned = false;
                            self.ghosts[i] = Some(g);
                        }
                    }
                },
                None => {},
            }
            i = i + 1;
        }
        proof {
            assert(self.ghosts@ =~= resolve_ghosts_spec(old(self).model()).ghosts);
            assert(self.model() =~= resolve_ghosts_spec(old(self).model()));
        }
    }

    /// The cleanup pass over everything tagged destroyed: each destroyed
    /// enemy despawns, its ghost (if alive) is flagged collectable, and —
    /// except for the shield's silent kills — the per-kill score is earned
    /// and announced.
    pub fn destroyed_cleanup(&mut self)
        requires
            old(self).wf(),
        ensures
            final(self).wf(),
            final(self).enemies@.len() == old(self).enemies@.len(),
            final(self).ghosts@.len() == old(self).ghosts@.len(),
            forall|i: int|
                0 <= i < old(self).enemies@.len() ==> final(self).enemies@[i]
                    == enemy_after_cleanup(old(self).enemies@[i]),
            forall|j: int|
                0 <= j < old(self).ghosts@.len() ==> final(self).ghosts@[j] == ghost_after_cleanup(
                    old(self).ghosts@[j],
                    ghost_owner_where(old(self).enemies@, j, |e: Enemy| e.destroyed),
                ),
            final(self).stats == (PlayerStats {
                current_points: final(self).stats.current_points,
                locked_score: final(self).stats.locked_score,
                ..old(self).stats
            }),
            final(self).stats.current_points as int == vstd::math::min(
                u32::MAX as int,
                old(self).stats.current_points + score_gain(
                    old(self).enemies@,
                    old(self).stats.enemy_kill_score,
                    old(self).enemies@.len() as int,
                ),
            ),
            final(self).stats.locked_score as int == vstd::math::min(
                u32::MAX as int,
                old(self).stats.locked_score + score_gain(
                    old(self).enemies@,
                    old(self).stats.enemy_kill_score,
                    old(self).enemies@.len() as int,
                ),
            ),
            final(self).events@ == old(self).events@ + score_events(
                old(self).enemies@,
                old(self).stats.enemy_kill_score,
                old(self).enemies@.len() as int,
            ),
            *final(self) == (GameWorld {
                stats: final(self).stats,
                enemies: final(self).enemies,
                ghosts: final(self).ghosts,
                events: final(self).events,
                ..*old(self)
            }),
            final(self).model() == cleanup_spec(old(self).model()),
    {
        let ghost destroyed_pred = (|e: Enemy| e.destroyed);
        let kill_score = self.stats.enemy_kill_score;
        let n = self.enemies.len();
        let mut i: usize = 0;
        while i < n
            invariant
                old(self).wf(),
                destroyed_pred == (|e: Enemy| e.destroyed),
                kill_score == old(self).stats.enemy_kill_score,
                self.enemies@.len() == n == old(self).enemies@.len(),
                self.ghosts@.len() == old(self).ghosts@.len(),
                0 <= i <= n,
                forall|k: int|
                    0 <= k < i ==> self.enemies@[k] == enemy_after_cleanup(old(self).enemies@[k]),
                forall|k: int| i <= k < n ==> self.enemies@[k] == old(self).enemies@[k],
                forall|j: int|
                    0 <= j < old(self).ghosts@.len() ==> self.ghosts@[j] == ghost_after_cleanup(
                        old(self).ghosts@[j],
                        ghost_owner_where(
                            old(self).enemies@.take(i as int),
                            j,
                            destroyed_pred,
                        ),
                    ),
                self.stats == (PlayerStats {
                    current_points: self.stats.current_points,
                    locked_score: self.stats.locked_score,
                    ..old(self).stats
                }),
                self.stats.current_points as int == vstd::math::min(
                    u32::MAX as int,
                    old(self).stats.current_points + score_gain(
                        old(self).enemies@,
                        kill_score,
                        i as int,
                    ),
                ),
                self.stats.locked_score as int == vstd::math::min(
                    u32::MAX as int,
                    old(self).stats.locked_score + score_gain(
                        old(self).enemies@,
                        kill_score,
                        i as int,
                    ),
                ),
                self.events@ == old(self).events@ + score_events(
                    old(self).enemies@,
                    kill_score,
                    i as int,
                ),
                self.stats.wf(),
                *self == (GameWorld {
                    stats: self.stats,
                    enemies: self.enemies,
                    ghosts: self.ghosts,
                    events: self.events,
                    ..*old(self)
                }),
            decreases n - i,
        {
            match self.enemies[i] {
                Some(e) => {
                    if e.destroyed {
                        if e.ghost_id < self.ghosts.len() {
                            match self.ghosts[e.ghost_id] {
                                Some(mut g) => {
                                    g.enemy_gone = true;
                                    self.ghosts[e.ghost_id] = Some(g);
                                },
                                None => {},
                            }
                        }
                        self.enemies[i] = None;
                        if !e.shield_kill {
                            self.stats.add_score(kill_score);
                            self.events.push(GameEvent::ScoreChanged(kill_score));
                        }
                        proof {
                            let olde = old(self).enemies@[i as int]->Some_0;
                            assert forall|k: int|
                                0 <= k < i && (#[trigger] old(self).enemies@[k]) is Some
                                    && (old(self).enemies@[k]->Some_0).destroyed implies (old(
                                self,
                            ).enemies@[k]->Some_0).ghost_id != olde.ghost_id by {
                                assert(old(self).enemies@[k] is Some
                                    && old(self).enemies@[i as int] is Some);
                            }
                        }
                    }
                },
                None => {},
            }
            proof {
                lemma_ghost_owner_extend(old(self).enemies@, destroyed_pred, i as int);
                assert(score_gain(old(self).enemies@, kill_score, i as int + 1) == score_gain(
                    old(self).enemies@,
                    kill_score,
                    i as int,
                ) + (if old(self).enemies@[i as int] matches Some(e) && e.destroyed
                    && !e.shield_kill {
                    kill_score as int
                } else {
                    0int
                }));
                assert(score_events(old(self).enemies@, kill_score, i as int + 1) == (if old(
                    self,
                ).enemies@[i as int] matches Some(e) && e.destroyed && !e.shield_kill {
                    score_events(old(self).enemies@, kill_score, i as int).push(
                        GameEvent::ScoreChanged(kill_score),
                    )
                } else {
                    score_events(old(self).enemies@, kill_score, i as int)
                }));
            }
            i = i + 1;
        }
        proof {
            assert(old(self).enemies@.take(n as int) =~= old(self).enemies@);
            assert forall|i2: int, j2: int|
                0 <= i2 < j2 < self.enemies@.len() implies (((#[trigger] self.enemies@[i2])
                is Some && (#[trigger] self.enemies@[j2]) is Some)
                ==> self.enemies@[i2]->Some_0.ghost_id != self.enemies@[j2]->Some_0.ghost_id) by {
                assert(self.enemies@[i2] == enemy_after_cleanup(old(self).enemies@[i2]));
                assert(self.enemies@[j2] == enemy_after_cleanup(old(self).enemies@[j2]));
            }
            let spec_after = cleanup_spec(old(self).model());
            assert(self.enemies@ =~= spec_after.enemies);
            assert(self.ghosts@ =~= spec_after.ghosts);
            assert(self.events@ =~= spec_after.events);
            assert(self.stats == spec_after.stats);
            assert(self.model() =~= spec_after);
        }
    }
}

/// True iff every entry of `ids` is distinct: an overlap report names each
/// entity at most once.
pub open spec fn ids_distinct(ids: Seq<usize>) -> bool {
    forall|k: int, l: int| 0 <= k < l < ids.len() ==> ids[k] != ids[l]
}

impl GameWorld {
    /// Adjudicate the planet-enemy overlaps the oracle reported (each enemy
    /// listed at most once): every listed alive enemy despawns immediately
    /// with its ghost, a planet-damaged notification goes out, and the
    /// planet takes a point of damage — announcing the terminal transition
    /// when health runs out.
    pub fn apply_planet_contacts(&mut self, enemy_ids: &Vec<usize>)
        requires
            old(self).wf(),
            ids_distinct(enemy_ids@),
        ensures
            final(self).wf(),
            final(self).enemies@.len() == old(self).enemies@.len(),
            final(self).ghosts@.len() == old(self).ghosts@.len(),
            forall|j: int|
                0 <= j < old(self).enemies@.len() ==> final(self).enemies@[j] == enemy_after_planet(
                    old(self).enemies@[j],
                    id_listed(enemy_ids@, j),
                ),
            forall|j: int|
                0 <= j < old(self).ghosts@.len() ==> final(self).ghosts@[j] == (if ghost_hit_by_planet(
                    enemy_ids@,
                    old(self).enemies@,
                    j,
                ) {
                    None::<GhostMarker>
                } else {
                    old(self).ghosts@[j]
                }),
            final(self).stats == (PlayerStats {
                current_health: planet_fold(
                    enemy_ids@,
                    old(self).enemies@,
                    old(self).stats.current_health,
                    enemy_ids@.len() as int,
                ).1,
                ..old(self).stats
            }),
            final(self).events@ == old(self).events@ + planet_fold(
                enemy_ids@,
                old(self).enemies@,
                old(self).stats.current_health,
                enemy_ids@.len() as int,
            ).0,
            *final(self) == (GameWorld {
                stats: final(self).stats,
                enemies: final(self).enemies,
                ghosts: final(self).ghosts,
                events: final(self).events,
                ..*old(self)
            }),
            final(self).model() == planet_spec(old(self).model(), enemy_ids@),
    {
        let n = enemy_ids.len();
        let mut k: usize = 0;
        while k < n
            invariant
                old(self).wf(),
                ids_distinct(enemy_ids@),
                n == enemy_ids@.len(),
                0 <= k <= n,
                self.enemies@.len() == old(self).enemies@.len(),
                self.ghosts@.len() == old(self).ghosts@.len(),
                forall|j: int|
                    0 <= j < old(self).enemies@.len() ==> self.enemies@[j] == enemy_after_planet(
                        old(self).enemies@[j],
                        id_listed(enemy_ids@.take(k as int), j),
                    ),
                forall|j: int|
                    0 <= j < old(self).ghosts@.len() ==> self.ghosts@[j] == (if ghost_hit_by_planet(
                        enemy_ids@.take(k as int),
                        old(self).enemies@,
                        j,
                    ) {
                        None::<GhostMarker>
                    } else {
                        old(self).ghosts@[j]
                    }),
                self.stats == (PlayerStats {
                    current_health: planet_fold(
                        enemy_ids@,
                        old(self).enemies@,
                        old(self).stats.current_health,
                        k as int,
                    ).1,
                    ..old(self).stats
                }),
                self.events@ == old(self).events@ + planet_fold(
                    enemy_ids@,
                    old(self).enemies@,
                    old(self).stats.current_health,
                    k as int,
                ).0,
                self.stats.wf(),
                *self == (GameWorld {
                    stats: self.stats,
                    enemies: self.enemies,
                    ghosts: self.ghosts,
                    events: self.events,
                    ..*old(self)
                }),
            decreases n - k,
        {
            let eid = enemy_ids[k];
            if eid < self.enemies.len() {
                proof {
                    assert forall|l: int| 0 <= l < k implies enemy_ids@[l] != eid by {
                        assert(ids_distinct(enemy_ids@));
                    }
                    assert(!id_listed(enemy_ids@.take(k as int), eid as int));
                }
                match self.enemies[eid] {
                    Some(e) => {
                        if e.ghost_id < self.ghosts.len() {
                            self.ghosts[e.ghost_id] = None;
                        }
                        self.enemies[eid] = None;
                        self.events.push(GameEvent::PlanetDamaged);
                        let defeated = self.stats.damage();
                        if defeated {
                            self.events.push(GameEvent::GameOver);
                        }
                    },
                    None => {},
                }
            }
            proof {
                lemma_id_listed_extend(enemy_ids@, k as int);
                lemma_ghost_planet_extend(enemy_ids@, old(self).enemies@, k as int);
            }
            k = k + 1;
        }
        proof {
            assert(enemy_ids@.take(n as int) =~= enemy_ids@);
            assert forall|i2: int, j2: int|
                0 <= i2 < j2 < self.enemies@.len() implies (((#[trigger] self.enemies@[i2])
                is Some && (#[trigger] self.enemies@[j2]) is Some)
                ==> self.enemies@[i2]->Some_0.ghost_id != self.enemies@[j2]->Some_0.ghost_id) by {
                assert(self.enemies@[i2] == enemy_after_planet(
                    old(self).enemies@[i2],
                    id_listed(enemy_ids@, i2),
                ));
                assert(self.enemies@[j2] == enemy_after_planet(
                    old(self).enemies@[j2],
                    id_listed(enemy_ids@, j2),
                ));
            }
            let spec_after = planet_spec(old(self).model(), enemy_ids@);
            assert(self.enemies@ =~= spec_after.enemies);
            assert(self.ghosts@ =~= spec_after.ghosts);
            assert(self.events@ =~= spec_after.events);
            assert(self.stats == spec_after.stats);
            assert(self.model() =~= spec_after);
        }
    }

    /// The dying-scanners reward: while the upgrade is owned and no more
    /// than the allowed number of scans are alive, every enemy killed this
    /// tick bursts into a small scan at its last position.
    pub fn handle_enemy_killed(&mut self, locations: &Vec<Vec2i>)
        requires
            old(self).wf(),
            forall|k: int| 0 <= k < locations@.len() ==> (#[trigger] locations@[k]).in_bounds(),
        ensures
            final(self).wf(),
            ({
                let gate = alive_scans(old(self).scans@, old(self).scans@.len() as int)
                    <= MAX_CONCURRENT_DYING_SCANS && old(self).stats.is_dying_scanners_upgrade;
                if !gate {
                    *final(self) == *old(self)
                } else {
                    &&& final(self).scans@.len() == old(self).scans@.len() + locations@.len()
                    &&& forall|i: int|
                        0 <= i < old(self).scans@.len() ==> final(self).scans@[i] == old(
                            self,
                        ).scans@[i]
                    &&& forall|i: int|
                        0 <= i < locations@.len() ==> final(self).scans@[old(self).scans@.len()
                            + i] == Some(
                            Scan::spawned_spec(locations@[i], DYING_SCAN_MAX_RADIUS_MICRO),
                        )
                    &&& *final(self) == (GameWorld { scans: final(self).scans, ..*old(self) })
                }
            }),
            final(self).model() == handle_enemy_killed_spec(old(self).model(), locations@),
    {
        let n = self.scans.len();
        let mut count: usize = 0;
        let mut i: usize = 0;
        while i < n
            invariant
                self.scans@.len() == n,
                0 <= i <= n,
                count <= i,
                count as int == alive_scans(self.scans@, i as int),
                *self == *old(self),
            decreases n - i,
        {
            if self.scans[i].is_some() {
                count = count + 1;
            }
            proof {
                assert(alive_scans(self.scans@, i as int + 1) == alive_scans(self.scans@, i as int)
                    + (if self.scans@[i as int] is Some {
                    1int
                } else {
                    0int
                }));
            }
            i = i + 1;
        }
        if count <= MAX_CONCURRENT_DYING_SCANS && self.stats.is_dying_scanners_upgrade {
            let m = locations.len();
            let mut k: usize = 0;
            while k < m
                invariant
                    old(self).wf(),
                    m == locations@.len(),
                    forall|w: int|
                        0 <= w < locations@.len() ==> (#[trigger] locations@[w]).in_bounds(),
                    0 <= k <= m,
                    self.scans@.len() == old(self).scans@.len() + k,
                    forall|w: int|
                        0 <= w < old(self).scans@.len() ==> self.scans@[w] == old(self).scans@[w],
                    forall|w: int|
                        0 <= w < k ==> self.scans@[old(self).scans@.len() + w] == Some(
                            Scan::spawned_spec(locations@[w], DYING_SCAN_MAX_RADIUS_MICRO),
                        ),
                    *self == (GameWorld { scans: self.scans, ..*old(self) }),
                decreases m - k,
            {
                let s = Scan::new(locations[k], DYING_SCAN_MAX_RADIUS_MICRO);
                self.scans.push(Some(s));
                k = k + 1;
            }
            proof {
                assert forall|w: int|
                    0 <= w < self.scans@.len() implies ((#[trigger] self.scans@[w]) matches Some(s)
                    ==> s.wf()) by {
                    if w < old(self).scans@.len() {
                        assert(self.scans@[w] == old(self).scans@[w]);
                    } else {
                        assert(self.scans@[w] == Some(
                            Scan::spawned_spec(
                                locations@[w - old(self).scans@.len()],
                                DYING_SCAN_MAX_RADIUS_MICRO,
                            ),
                        ));
                        assert(locations@[w - old(self).scans@.len()].in_bounds());
                    }
                }
            }
        }
        proof {
            let spec_after = handle_enemy_killed_spec(old(self).model(), locations@);
            assert(self.scans@ =~= spec_after.scans);
            assert(self.model() =~= spec_after);
        }
    }

    /// Spawn one wave: the current wave size's worth of enemies, each at a
    /// random border position aimed at the planet at the current enemy
    /// speed, each paired with a fresh ghost at its spawn point, and each
    /// announced with its border side.
    pub fn spawn_wave(&mut self)
        requires
            old(self).wf(),
        ensures
            final(self).wf(),
            final(self).enemies@.len() == old(self).enemies@.len()
                + old(self).enemy_stats.amount_to_spawn_a_wave,
            final(self).ghosts@.len() == old(self).ghosts@.len()
                + old(self).enemy_stats.amount_to_spawn_a_wave,
            final(self).events@.len() == old(self).events@.len()
                + old(self).enemy_stats.amount_to_spawn_a_wave,
            forall|i: int|
                0 <= i < old(self).enemies@.len() ==> final(self).enemies@[i] == old(
                    self,
                ).enemies@[i],
            forall|i: int|
                0 <= i < old(self).ghosts@.len() ==> final(self).ghosts@[i] == old(self).ghosts@[i],
            forall|i: int|
                0 <= i < old(self).events@.len() ==> final(self).events@[i] == old(self).events@[i],
            forall|i: int|
                old(self).enemies@.len() <= i < final(self).enemies@.len() ==> ((
                #[trigger] final(self).enemies@[i]) matches Some(e) && e.wf()
                    && e.speed == old(self).enemy_stats.speed && e.age_ms == 0 && !e.scanned
                    && !e.destroyed && !e.shield_kill && !e.visible && e.reveal_timer_ms is None
                    && e.spawn != Vec2i::origin_spec() && e.ghost_id < final(self).ghosts@.len()
                    && final(self).ghosts@[e.ghost_id as int] == Some(
                    GhostMarker { pos: e.spawn, enemy_gone: false, scanned: false },
                )),
            forall|i: int|
                old(self).events@.len() <= i < final(self).events@.len() ==> (
                #[trigger] final(self).events@[i]) is EnemySpawned,
            *final(self) == (GameWorld {
                enemies: final(self).enemies,
                ghosts: final(self).ghosts,
                events: final(self).events,
                ..*old(self)
            }),
    {
        let wave = self.enemy_stats.amount_to_spawn_a_wave;
        let speed = self.enemy_stats.speed;
        let mut w: u32 = 0;
        while w < wave
            invariant
                old(self).wf(),
                wave == old(self).enemy_stats.amount_to_spawn_a_wave,
                speed == old(self).enemy_stats.speed,
                0 <= w <= wave,
                self.enemies@.len() == old(self).enemies@.len() + w,
                self.ghosts@.len() == old(self).ghosts@.len() + w,
                self.events@.len() == old(self).events@.len() + w,
                forall|i: int|
                    0 <= i < old(self).enemies@.len() ==> self.enemies@[i] == old(self).enemies@[i],
                forall|i: int|
                    0 <= i < old(self).ghosts@.len() ==> self.ghosts@[i] == old(self).ghosts@[i],
                forall|i: int|
                    0 <= i < old(self).events@.len() ==> self.events@[i] == old(self).events@[i],
                forall|i: int|
                    old(self).enemies@.len() <= i < self.enemies@.len() ==> ((
                    #[trigger] self.enemies@[i]) matches Some(e) && e.wf()
                        && e.speed == old(self).enemy_stats.speed && e.age_ms == 0 && !e.scanned
                        && !e.destroyed && !e.shield_kill && !e.visible
                        && e.reveal_timer_ms is None && e.spawn != Vec2i::origin_spec()
                        && e.ghost_id < self.ghosts@.len() && self.ghosts@[e.ghost_id as int]
                        == Some(GhostMarker { pos: e.spawn, enemy_gone: false, scanned: false })),
                forall|i: int|
                    old(self).events@.len() <= i < self.events@.len() ==> (
                    #[trigger] self.events@[i]) is EnemySpawned,
                self.enemies_wf(),
                *self == (GameWorld {
                    enemies: self.enemies,
                    ghosts: self.ghosts,
                    events: self.events,
                    ..*old(self)
                }),
            decreases wave - w,
        {
            let (point, side) = self.field.new_spawn_point();
            let ghost_id = self.ghosts.len();
            self.ghosts.push(Some(GhostMarker::new(point)));
            let e = Enemy::spawn(point, speed, ghost_id);
            self.enemies.push(Some(e));
            self.events.push(GameEvent::EnemySpawned(side));
            w = w + 1;
        }
    }

    /// Accrue `dt` toward the difficulty director's next tick. The interval
    /// is the current wave interval, re-read after every firing — the timer
    /// is variable-rate by construction.
    pub fn difficulty_timer_tick(&mut self, dt: u32)
        requires
            old(self).wf(),
        ensures
            final(self).wf(),
            ({
                let t = old(self).difficulty_timer_ms.saturating_add(dt as u64);
                if t >= old(self).enemy_stats.time_between_waves_ms as u64 {
                    &&& final(self).difficulty_timer_ms == 0
                    &&& final(self).enemy_stats == old(self).enemy_stats.tick_spec(
                        old(self).stats.locked_score,
                    )
                } else {
                    &&& final(self).difficulty_timer_ms == t
                    &&& final(self).enemy_stats == old(self).enemy_stats
                }
            }),
            final(self).enemy_stats.time_between_waves_ms
                <= old(self).enemy_stats.time_between_waves_ms,
            final(self).enemy_stats.time_between_waves_ms
                >= crate::difficulty::WAVE_INTERVAL_FLOOR_MS,
            final(self).enemy_stats.speed >= old(self).enemy_stats.speed,
            *final(self) == (GameWorld {
                enemy_stats: final(self).enemy_stats,
                difficulty_timer_ms: final(self).difficulty_timer_ms,
                ..*old(self)
            }),
            final(self).model() == difficulty_timer_spec(old(self).model(), dt),
    {
        let t = self.difficulty_timer_ms.saturating_add(dt as u64);
        if t >= self.enemy_stats.time_between_waves_ms as u64 {
            self.difficulty_timer_ms = 0;
            let locked = self.stats.locked_score;
            self.enemy_stats.tick(locked);
        } else {
            self.difficulty_timer_ms = t;
        }
        proof {
            assert(self.model() =~= difficulty_timer_spec(old(self).model(), dt));
        }
    }

    /// Accrue `dt` toward the next wave; on elapsing the (re-read) wave
    /// interval, the timer re-arms and a wave spawns.
    pub fn wave_timer_tick(&mut self, dt: u32) -> (fired: bool)
        requires
            old(self).wf(),
        ensures
            final(self).wf(),
            fired == (old(self).wave_timer_ms.saturating_add(dt as u64)
                >= old(self).enemy_stats.time_between_waves_ms as u64),
            !fired ==> *final(self) == (GameWorld {
                wave_timer_ms: old(self).wave_timer_ms.saturating_add(dt as u64),
                ..*old(self)
            }),
            fired ==> {
                &&& final(self).wave_timer_ms == 0
                &&& final(self).enemies@.len() == old(self).enemies@.len()
                    + old(self).enemy_stats.amount_to_spawn_a_wave
                &&& final(self).ghosts@.len() == old(self).ghosts@.len()
                    + old(self).enemy_stats.amount_to_spawn_a_wave
                &&& final(self).events@.len() == old(self).events@.len()
                    + old(self).enemy_stats.amount_to_spawn_a_wave
                &&& forall|i: int|
                    0 <= i < old(self).enemies@.len() ==> final(self).enemies@[i] == old(
                        self,
                    ).enemies@[i]
                &&& forall|i: int|
                    0 <= i < old(self).ghosts@.len() ==> final(self).ghosts@[i] == old(
                        self,
                    ).ghosts@[i]
                &&& forall|i: int|
                    0 <= i < old(self).events@.len() ==> final(self).events@[i] == old(
                        self,
                    ).events@[i]
                &&& forall|i: int|
                    old(self).enemies@.len() <= i < final(self).enemies@.len() ==> ((
                    #[trigger] final(self).enemies@[i]) matches Some(e) && e.wf()
                        && e.speed == old(self).enemy_stats.speed && e.age_ms == 0 && !e.scanned
                        && !e.destroyed && !e.shield_kill && !e.visible
                        && e.reveal_timer_ms is None && e.spawn != Vec2i::origin_spec()
                        && e.ghost_id < final(self).ghosts@.len()
                        && final(self).ghosts@[e.ghost_id as int] == Some(
                        GhostMarker { pos: e.spawn, enemy_gone: false, scanned: false },
                    ))
                &&& forall|i: int|
                    old(self).events@.len() <= i < final(self).events@.len() ==> (
                    #[trigger] final(self).events@[i]) is EnemySpawned
                &&& *final(self) == (GameWorld {
                    enemies: final(self).enemies,
                    ghosts: final(self).ghosts,
                    events: final(self).events,
                    wave_timer_ms: 0,
                    ..*old(self)
                })
            },
    {
        let t = self.wave_timer_ms.saturating_add(dt as u64);
        if t >= self.enemy_stats.time_between_waves_ms as u64 {
            self.wave_timer_ms = 0;
            self.spawn_wave();
            true
        } else {
            self.wave_timer_ms = t;
            false
        }
    }

    /// One whole simulation tick, in the contractual phase order: (1) the
    /// tick's action events are consumed (with the automatic scan timer);
    /// (2) the missile, scan and shield pipelines advance and their overlap
    /// reports are adjudicated; (3) enemy state advances — movement, the
    /// reveal of freshly scanned enemies and ghosts, and the reveal timers;
    /// (4) destroyed enemies and planet impacts are cleaned up, emitting
    /// score, damage and game-over events; (5) the derived counters, the
    /// passive score trickle, the recharge timers and the two variable-rate
    /// spawn timers run. The tick's events are drained and returned: none
    /// persists into the next tick.
    ///
    /// The whole effect is pinned to `tick_pre_spec`, the deterministic
    /// composition of those phases; only the wave spawn's random border
    /// draws are left open, and for those the count, the freshness and the
    /// ghost pairing of every spawned enemy are stated.
    #[verifier::rlimit(100)]
    pub fn tick(
        &mut self,
        dt: u32,
        inputs: &Vec<InputEvent>,
        contacts: &ContactReports,
    ) -> (events_out: Vec<GameEvent>)
        requires
            old(self).wf(),
            forall|k: int|
                0 <= k < inputs@.len() ==> ((#[trigger] inputs@[k]) matches InputEvent::FireMissile(
                    p,
                ) ==> target_in_range(p)),
            ids_distinct(contacts.planet_enemy@),
        ensures
            final(self).wf(),
            // The cross-cutting resource invariant: energy and health never
            // leave their ranges, whatever the tick did.
            final(self).stats.current_energy <= final(self).stats.max_energy,
            final(self).stats.current_health <= final(self).stats.max_health,
            // The difficulty never relents: across any tick the wave
            // interval cannot grow (and never sits below its floor), and the
            // enemy speed cannot fall.
            final(self).enemy_stats.time_between_waves_ms
                <= old(self).enemy_stats.time_between_waves_ms,
            final(self).enemy_stats.time_between_waves_ms
                >= crate::difficulty::WAVE_INTERVAL_FLOOR_MS,
            final(self).enemy_stats.speed >= old(self).enemy_stats.speed,
            final(self).events@.len() == 0,
            final(self).field == old(self).field,
            ({
                let pre = tick_pre_spec(old(self).model(), dt, inputs@, contacts.model());
                let wt = pre.wave_timer_ms.saturating_add(dt as u64);
                let fired = wt >= pre.enemy_stats.time_between_waves_ms as u64;
                let wave = pre.enemy_stats.amount_to_spawn_a_wave as int;
                if !fired {
                    &&& final(self).model() == (WorldModel {
                        wave_timer_ms: wt,
                        events: Seq::<GameEvent>::empty(),
                        ..pre
                    })
                    &&& events_out@ == pre.events
                } else {
                    &&& final(self).stats == pre.stats
                    &&& final(self).enemy_stats == pre.enemy_stats
                    &&& final(self).shield == pre.shield
                    &&& final(self).difficulty_timer_ms == pre.difficulty_timer_ms
                    &&& final(self).wave_timer_ms == 0
                    &&& final(self).missiles@ == pre.missiles
                    &&& final(self).markers@ == pre.markers
                    &&& final(self).scans@ == pre.scans
                    &&& final(self).enemies@.len() == pre.enemies.len() + wave
                    &&& final(self).ghosts@.len() == pre.ghosts.len() + wave
                    &&& (forall|i: int|
                        0 <= i < pre.enemies.len() ==> final(self).enemies@[i] == pre.enemies[i])
                    &&& (forall|i: int|
                        0 <= i < pre.ghosts.len() ==> final(self).ghosts@[i] == pre.ghosts[i])
                    &&& (forall|i: int|
                        pre.enemies.len() <= i < final(self).enemies@.len() ==> ((
                        #[trigger] final(self).enemies@[i]) matches Some(e) && e.wf()
                            && e.speed == pre.enemy_stats.speed && e.age_ms == 0 && !e.scanned
                            && !e.destroyed && !e.shield_kill && !e.visible
                            && e.reveal_timer_ms is None && e.spawn != Vec2i::origin_spec()
                            && e.ghost_id < final(self).ghosts@.len()
                            && final(self).ghosts@[e.ghost_id as int] == Some(
                            GhostMarker { pos: e.spawn, enemy_gone: false, scanned: false },
                        )))
                    &&& events_out@.len() == pre.events.len() + wave
                    &&& (forall|i: int|
                        0 <= i < pre.events.len() ==> events_out@[i] == pre.events[i])
                    &&& (forall|i: int|
                        pre.events.len() <= i < events_out@.len() ==> (
                        #[trigger] events_out@[i]) is EnemySpawned)
                }
            }),
    {
        let ghost m0 = self.model();
        // Phase 1: consume the tick's action events.
        let n_inputs = inputs.len();
        let mut k: usize = 0;
        while k < n_inputs
            invariant
                self.wf(),
                n_inputs == inputs@.len(),
                0 <= k <= n_inputs,
                forall|w: int|
                    0 <= w < inputs@.len() ==> ((#[trigger] inputs@[w])
                        matches InputEvent::FireMissile(p) ==> target_in_range(p)),
                self.model() == inputs_fold_spec(m0, inputs@, k as int),
                self.field == old(self).field,
                self.enemy_stats == old(self).enemy_stats,
            decreases n_inputs - k,
        {
            let ghost prev = self.model();
            match inputs[k] {
                InputEvent::FireMissile(target) => {
                    self.handle_fire_missile(target);
                },
                InputEvent::Scan => {
                    self.fire_scan();
                },
                InputEvent::Shield(on) => {
                    self.toggle_shield(on);
                },
            }
            proof {
                assert(self.model() == input_spec(prev, inputs@[k as int]));
            }
            k = k + 1;
        }
        let ghost m_inputs = self.model();
        let auto_fire = self.stats.auto_scan_tick(dt);
        if auto_fire {
            self.fire_scan();
        }
        let ghost m1 = self.model();
        proof {
            assert(m1 =~= auto_scan_phase_spec(m_inputs, dt));
        }
        // Phase 2: the three pipelines and their collisions.
        self.update_missiles(dt);
        let ghost m2a = self.model();
        let kills = self.apply_missile_contacts(&contacts.missile_enemy);
        self.update_scans(dt);
        self.apply_scan_contacts(&contacts.scan_enemy, &contacts.scan_ghost);
        self.shield_upkeep(dt);
        self.apply_shield_contacts(&contacts.shield_enemy);
        // Phase 3: enemy state and visibility.
        self.move_enemies(dt);
        self.handle_enemy_killed(&kills);
        self.reveal_scanned_enemies();
        self.resolve_scanned_ghosts();
        self.visibility_pass(dt);
        // Phase 4: destruction cleanup and planet impacts.
        self.destroyed_cleanup();
        self.apply_planet_contacts(&contacts.planet_enemy);
        // Phase 5: derived counters and the slow timers.
        self.update_enemy_count();
        let ghost m5a = self.model();
        self.stats.handle_time_score(dt);
        self.stats.recharge_tick(dt);
        proof {
            assert(self.model() =~= (WorldModel {
                stats: PlayerStats::energy_tick_spec(
                    PlayerStats::health_tick_spec(
                        PlayerStats::time_score_spec(m5a.stats, dt),
                        dt,
                    ),
                    dt,
                ),
                ..m5a
            }));
        }
        self.difficulty_timer_tick(dt);
        let ghost pre = self.model();
        proof {
            assert(pre == tick_pre_spec(m0, dt, inputs@, contacts.model()));
        }
        self.wave_timer_tick(dt);
        // Drain this tick's events: the queues are single-tick by contract.
        let mut events_out: Vec<GameEvent> = Vec::new();
        core::mem::swap(&mut events_out, &mut self.events);
        proof {
            let wt = pre.wave_timer_ms.saturating_add(dt as u64);
            if !(wt >= pre.enemy_stats.time_between_waves_ms as u64) {
                assert(self.model() =~= (WorldModel {
                    wave_timer_ms: wt,
                    events: Seq::<GameEvent>::empty(),
                    ..pre
                }));
            }
        }
        events_out
    }
}

/// A scan slot one tick later: grown by the scan speed, gone if the new
/// radius has reached the maximum.
pub open spec fn scan_step(o: Option<Scan>, dt: u32, scan_speed: u32) -> Option<Scan> {
    match o {
        None => None,
        Some(s) => {
            let grown = s.update_spec(dt, scan_speed);
            if grown.radius_micro >= grown.max_radius_micro {
                None
            } else {
                Some(grown)
            }
        },
    }
}

/// An enemy slot one movement tick later.
pub open spec fn enemy_moved(o: Option<Enemy>, dt: u32) -> Option<Enemy> {
    match o {
        None => None,
        Some(e) => Some(Enemy { age_ms: e.age_ms.saturating_add(dt as u64), ..e }),
    }
}

/// An enemy slot one reveal-timer tick later.
pub open spec fn enemy_vis_ticked(o: Option<Enemy>, dt: u32) -> Option<Enemy> {
    match o {
        None => None,
        Some(e) => Some(
            match e.reveal_timer_ms {
                Some(rem) => {
                    if rem <= dt as u64 {
                        Enemy { visible: false, reveal_timer_ms: None::<u64>, ..e }
                    } else {
                        Enemy { reveal_timer_ms: Some((rem - dt as u64) as u64), ..e }
                    }
                },
                None => e,
            },
        ),
    }
}

/// An enemy slot after the missile pass: destroyed if some pair hit it.
pub open spec fn enemy_after_hit(o: Option<Enemy>, hit: bool) -> Option<Enemy> {
    match o {
        None => None,
        Some(e) => if hit {
            Some(Enemy { destroyed: true, ..e })
        } else {
            Some(e)
        },
    }
}

/// A missile slot after the missile pass: exploding with its kill flag set
/// if some pair hit it.
pub open spec fn missile_after_hit(o: Option<Missile>, hit: bool) -> Option<Missile> {
    match o {
        None => None,
        Some(m) => if hit {
            Some(Missile { reached_target: true, enemy_killed: true, ..m })
        } else {
            Some(m)
        },
    }
}

/// True iff one of the overlap pairs pins enemy `eid` against an alive
/// missile: the enemy is to be destroyed.
pub open spec fn enemy_hit(pairs: Seq<(usize, usize)>, ms: Seq<Option<Missile>>, eid: int) -> bool {
    exists|k: int|
        0 <= k < pairs.len() && (#[trigger] pairs[k]).1 == eid && pairs[k].0 < ms.len()
            && ms[pairs[k].0 as int] is Some
}

/// True iff one of the overlap pairs pins missile `mid` against an alive
/// enemy: the missile explodes where it is and remembers the kill.
pub open spec fn missile_hit(pairs: Seq<(usize, usize)>, es: Seq<Option<Enemy>>, mid: int) -> bool {
    exists|k: int|
        0 <= k < pairs.len() && (#[trigger] pairs[k]).0 == mid && pairs[k].1 < es.len()
            && es[pairs[k].1 as int] is Some
}

/// The kill events of the first `upto` overlap pairs: one per pair whose
/// missile and enemy are both alive, at the enemy's position.
pub open spec fn kill_events(
    pairs: Seq<(usize, usize)>,
    ms: Seq<Option<Missile>>,
    es: Seq<Option<Enemy>>,
    upto: int,
) -> Seq<GameEvent>
    decreases upto,
{
    if upto <= 0 {
        Seq::empty()
    } else {
        let rest = kill_events(pairs, ms, es, upto - 1);
        let p = pairs[upto - 1];
        if p.0 < ms.len() && ms[p.0 as int] is Some && p.1 < es.len() && es[p.1 as int] is Some {
            rest.push(GameEvent::EnemyKilled((es[p.1 as int]->Some_0).pos_spec()))
        } else {
            rest
        }
    }
}

/// The kill locations of the first `upto` overlap pairs, parallel to
/// `kill_events`.
pub open spec fn kill_positions(
    pairs: Seq<(usize, usize)>,
    ms: Seq<Option<Missile>>,
    es: Seq<Option<Enemy>>,
    upto: int,
) -> Seq<Vec2i>
    decreases upto,
{
    if upto <= 0 {
        Seq::empty()
    } else {
        let rest = kill_positions(pairs, ms, es, upto - 1);
        let p = pairs[upto - 1];
        if p.0 < ms.len() && ms[p.0 as int] is Some && p.1 < es.len() && es[p.1 as int] is Some {
            rest.push((es[p.1 as int]->Some_0).pos_spec())
        } else {
            rest
        }
    }
}

/// Extending the processed pair prefix by one marks exactly the enemy of
/// that pair (when its missile is alive) and no other.
proof fn lemma_enemy_hit_extend(pairs: Seq<(usize, usize)>, ms: Seq<Option<Missile>>, k: int)
    requires
        0 <= k < pairs.len(),
    ensures
        forall|j: int| enemy_hit(pairs.take(k), ms, j) ==> enemy_hit(pairs.take(k + 1), ms, j),
        forall|j: int|
            enemy_hit(pairs.take(k + 1), ms, j) ==> (enemy_hit(pairs.take(k), ms, j) || (pairs[k].1
                == j && pairs[k].0 < ms.len() && ms[pairs[k].0 as int] is Some)),
        (pairs[k].0 < ms.len() && ms[pairs[k].0 as int] is Some) ==> enemy_hit(
            pairs.take(k + 1),
            ms,
            pairs[k].1 as int,
        ),
{
    assert forall|j: int|
        enemy_hit(pairs.take(k), ms, j) implies enemy_hit(pairs.take(k + 1), ms, j) by {
        let w = choose|w: int|
            0 <= w < pairs.take(k).len() && (#[trigger] pairs.take(k)[w]).1 == j
                && pairs.take(k)[w].0 < ms.len() && ms[pairs.take(k)[w].0 as int] is Some;
        assert(pairs.take(k + 1)[w] == pairs.take(k)[w]);
    }
    assert forall|j: int|
        enemy_hit(pairs.take(k + 1), ms, j) implies (enemy_hit(pairs.take(k), ms, j) || (
    pairs[k].1 == j && pairs[k].0 < ms.len() && ms[pairs[k].0 as int] is Some)) by {
        let w = choose|w: int|
            0 <= w < pairs.take(k + 1).len() && (#[trigger] pairs.take(k + 1)[w]).1 == j
                && pairs.take(k + 1)[w].0 < ms.len() && ms[pairs.take(k + 1)[w].0 as int] is Some;
        if w < k {
            assert(pairs.take(k)[w] == pairs.take(k + 1)[w]);
        } else {
            assert(pairs.take(k + 1)[w] == pairs[k]);
        }
    }
    if pairs[k].0 < ms.len() && ms[pairs[k].0 as int] is Some {
        assert(pairs.take(k + 1)[k] == pairs[k]);
    }
}

/// Extending the processed pair prefix by one marks exactly the missile of
/// that pair (when its enemy is alive) and no other.
proof fn lemma_missile_hit_extend(pairs: Seq<(usize, usize)>, es: Seq<Option<Enemy>>, k: int)
    requires
        0 <= k < pairs.len(),
    ensures
        forall|j: int| missile_hit(pairs.take(k), es, j) ==> missile_hit(pairs.take(k + 1), es, j),
        forall|j: int|
            missile_hit(pairs.take(k + 1), es, j) ==> (missile_hit(pairs.take(k), es, j) || (
            pairs[k].0 == j && pairs[k].1 < es.len() && es[pairs[k].1 as int] is Some)),
        (pairs[k].1 < es.len() && es[pairs[k].1 as int] is Some) ==> missile_hit(
            pairs.take(k + 1),
            es,
            pairs[k].0 as int,
        ),
{
    assert forall|j: int|
        missile_hit(pairs.take(k), es, j) implies missile_hit(pairs.take(k + 1), es, j) by {
        let w = choose|w: int|
            0 <= w < pairs.take(k).len() && (#[trigger] pairs.take(k)[w]).0 == j
                && pairs.take(k)[w].1 < es.len() && es[pairs.take(k)[w].1 as int] is Some;
        assert(pairs.take(k + 1)[w] == pairs.take(k)[w]);
    }
    assert forall|j: int|
        missile_hit(pairs.take(k + 1), es, j) implies (missile_hit(pairs.take(k), es, j) || (
    pairs[k].0 == j && pairs[k].1 < es.len() && es[pairs[k].1 as int] is Some)) by {
        let w = choose|w: int|
            0 <= w < pairs.take(k + 1).len() && (#[trigger] pairs.take(k + 1)[w]).0 == j
                && pairs.take(k + 1)[w].1 < es.len() && es[pairs.take(k + 1)[w].1 as int] is Some;
        if w < k {
            assert(pairs.take(k)[w] == pairs.take(k + 1)[w]);
        } else {
            assert(pairs.take(k + 1)[w] == pairs[k]);
        }
    }
    if pairs[k].1 < es.len() && es[pairs[k].1 as int] is Some {
        assert(pairs.take(k + 1)[k] == pairs[k]);
    }
}

/// True iff one of the contact-start pairs pins slot `id` (its second
/// component) against an alive entity of `firsts` (its first component).
pub open spec fn marked_by_pair<T>(pairs: Seq<(usize, usize)>, firsts: Seq<Option<T>>, id: int) -> bool {
    exists|k: int|
        0 <= k < pairs.len() && (#[trigger] pairs[k]).1 == id && pairs[k].0 < firsts.len()
            && firsts[pairs[k].0 as int] is Some
}

/// Extending the processed pair prefix by one marks exactly the second id of
/// that pair (when its first names an alive entity) and no other.
proof fn lemma_marked_by_pair_extend<T>(pairs: Seq<(usize, usize)>, firsts: Seq<Option<T>>, k: int)
    requires
        0 <= k < pairs.len(),
    ensures
        forall|j: int|
            marked_by_pair(pairs.take(k), firsts, j) ==> marked_by_pair(
                pairs.take(k + 1),
                firsts,
                j,
            ),
        forall|j: int|
            marked_by_pair(pairs.take(k + 1), firsts, j) ==> (marked_by_pair(
                pairs.take(k),
                firsts,
                j,
            ) || (pairs[k].1 == j && pairs[k].0 < firsts.len()
                && firsts[pairs[k].0 as int] is Some)),
        (pairs[k].0 < firsts.len() && firsts[pairs[k].0 as int] is Some) ==> marked_by_pair(
            pairs.take(k + 1),
            firsts,
            pairs[k].1 as int,
        ),
{
    assert forall|j: int|
        marked_by_pair(pairs.take(k), firsts, j) implies marked_by_pair(
        pairs.take(k + 1),
        firsts,
        j,
    ) by {
        let w = choose|w: int|
            0 <= w < pairs.take(k).len() && (#[trigger] pairs.take(k)[w]).1 == j
                && pairs.take(k)[w].0 < firsts.len() && firsts[pairs.take(k)[w].0 as int] is Some;
        assert(pairs.take(k + 1)[w] == pairs.take(k)[w]);
    }
    assert forall|j: int|
        marked_by_pair(pairs.take(k + 1), firsts, j) implies (marked_by_pair(
        pairs.take(k),
        firsts,
        j,
    ) || (pairs[k].1 == j && pairs[k].0 < firsts.len()
        && firsts[pairs[k].0 as int] is Some)) by {
        let w = choose|w: int|
            0 <= w < pairs.take(k + 1).len() && (#[trigger] pairs.take(k + 1)[w]).1 == j
                && pairs.take(k + 1)[w].0 < firsts.len() && firsts[pairs.take(k + 1)[w].0 as int]
                is Some;
        if w < k {
            assert(pairs.take(k)[w] == pairs.take(k + 1)[w]);
        } else {
            assert(pairs.take(k + 1)[w] == pairs[k]);
        }
    }
    if pairs[k].0 < firsts.len() && firsts[pairs[k].0 as int] is Some {
        assert(pairs.take(k + 1)[k] == pairs[k]);
    }
}

/// An enemy slot after the scan pass: tagged scanned if a scan first touched
/// it this tick.
pub open spec fn enemy_after_scan(o: Option<Enemy>, hit: bool) -> Option<Enemy> {
    match o {
        None => None,
        Some(e) => if hit {
            Some(Enemy { scanned: true, ..e })
        } else {
            Some(e)
        },
    }
}

/// A ghost slot after the scan pass: tagged scanned if a scan first touched
/// it this tick.
pub open spec fn ghost_after_scan(o: Option<GhostMarker>, hit: bool) -> Option<GhostMarker> {
    match o {
        None => None,
        Some(g) => if hit {
            Some(GhostMarker { scanned: true, ..g })
        } else {
            Some(g)
        },
    }
}

/// An enemy slot after the shield pass: destroyed silently (no score) if it
/// overlapped the active shield.
pub open spec fn enemy_after_shield(o: Option<Enemy>, hit: bool) -> Option<Enemy> {
    match o {
        None => None,
        Some(e) => if hit {
            Some(Enemy { destroyed: true, shield_kill: true, ..e })
        } else {
            Some(e)
        },
    }
}

/// True iff `ids` lists `id`.
pub open spec fn id_listed(ids: Seq<usize>, id: int) -> bool {
    exists|k: int| 0 <= k < ids.len() && (#[trigger] ids[k]) == id
}

/// Extending a processed id prefix by one lists exactly that id and no
/// other.
proof fn lemma_id_listed_extend(ids: Seq<usize>, k: int)
    requires
        0 <= k < ids.len(),
    ensures
        forall|j: int| id_listed(ids.take(k), j) ==> id_listed(ids.take(k + 1), j),
        forall|j: int|
            id_listed(ids.take(k + 1), j) ==> (id_listed(ids.take(k), j) || ids[k] == j),
        id_listed(ids.take(k + 1), ids[k] as int),
{
    assert forall|j: int|
        id_listed(ids.take(k), j) implies id_listed(ids.take(k + 1), j) by {
        let w = choose|w: int| 0 <= w < ids.take(k).len() && (#[trigger] ids.take(k)[w]) == j;
        assert(ids.take(k + 1)[w] == ids.take(k)[w]);
    }
    assert forall|j: int|
        id_listed(ids.take(k + 1), j) implies (id_listed(ids.take(k), j) || ids[k] == j) by {
        let w = choose|w: int|
            0 <= w < ids.take(k + 1).len() && (#[trigger] ids.take(k + 1)[w]) == j;
        if w < k {
            assert(ids.take(k)[w] == ids.take(k + 1)[w]);
        } else {
            assert(ids.take(k + 1)[w] == ids[k]);
        }
    }
    assert(ids.take(k + 1)[k] == ids[k]);
}

/// True iff some alive enemy of `es` satisfies `p` and owns ghost `j`.
pub open spec fn ghost_owner_where(
    es: Seq<Option<Enemy>>,
    j: int,
    p: spec_fn(Enemy) -> bool,
) -> bool {
    exists|i: int|
        0 <= i < es.len() && ((#[trigger] es[i]) matches Some(e) && p(e) && e.ghost_id == j)
}

/// Extending the processed enemy prefix by one touches exactly the ghost of
/// that slot's enemy (when it satisfies `p`) and no other.
proof fn lemma_ghost_owner_extend(es: Seq<Option<Enemy>>, p: spec_fn(Enemy) -> bool, i: int)
    requires
        0 <= i < es.len(),
    ensures
        forall|j: int|
            ghost_owner_where(es.take(i), j, p) ==> ghost_owner_where(es.take(i + 1), j, p),
        forall|j: int|
            ghost_owner_where(es.take(i + 1), j, p) ==> (ghost_owner_where(es.take(i), j, p) || (
            es[i] matches Some(e) && p(e) && e.ghost_id == j)),
        (es[i] matches Some(e) && p(e)) ==> ghost_owner_where(
            es.take(i + 1),
            (es[i]->Some_0).ghost_id as int,
            p,
        ),
{
    assert forall|j: int|
        ghost_owner_where(es.take(i), j, p) implies ghost_owner_where(es.take(i + 1), j, p) by {
        let k = choose|k: int|
            0 <= k < es.take(i).len() && ((#[trigger] es.take(i)[k]) matches Some(e) && p(e)
                && e.ghost_id == j);
        assert(es.take(i + 1)[k] == es.take(i)[k]);
    }
    assert forall|j: int|
        ghost_owner_where(es.take(i + 1), j, p) implies (ghost_owner_where(es.take(i), j, p) || (
    es[i] matches Some(e) && p(e) && e.ghost_id == j)) by {
        let k = choose|k: int|
            0 <= k < es.take(i + 1).len() && ((#[trigger] es.take(i + 1)[k]) matches Some(e)
                && p(e) && e.ghost_id == j);
        if k < i {
            assert(es.take(i)[k] == es.take(i + 1)[k]);
        } else {
            assert(es.take(i + 1)[k] == es[i]);
        }
    }
    if es[i] matches Some(e) && p(e) {
        assert(es.take(i + 1)[i] == es[i]);
    }
}

/// An enemy slot after the reveal pass: a scanned enemy becomes visible,
/// starts its reveal timer and drops the tag.
pub open spec fn enemy_after_reveal(o: Option<Enemy>) -> Option<Enemy> {
    match o {
        None => None,
        Some(e) => if e.scanned {
            Some(
                Enemy {
                    scanned: false,
                    visible: true,
                    reveal_timer_ms: Some(REVEAL_DURATION_MS),
                    ..e
                },
            )
        } else {
            Some(e)
        },
    }
}

/// A ghost slot moved to its scanned enemy's position.
pub open spec fn ghost_retarget(o: Option<GhostMarker>, pos: Vec2i) -> Option<GhostMarker> {
    match o {
        None => None,
        Some(g) => Some(GhostMarker { pos, ..g }),
    }
}

/// A ghost slot after the scanned-ghost resolution: a scanned ghost whose
/// enemy is gone despawns; one whose enemy still flies just drops the tag.
pub open spec fn ghost_resolved(o: Option<GhostMarker>) -> Option<GhostMarker> {
    match o {
        None => None,
        Some(g) => if g.scanned {
            if g.enemy_gone {
                None
            } else {
                Some(GhostMarker { scanned: false, ..g })
            }
        } else {
            Some(g)
        },
    }
}

/// An enemy slot after the cleanup pass: a destroyed enemy leaves the arena.
pub open spec fn enemy_after_cleanup(o: Option<Enemy>) -> Option<Enemy> {
    match o {
        None => None,
        Some(e) => if e.destroyed {
            None
        } else {
            Some(e)
        },
    }
}

/// A ghost slot after the cleanup pass: flagged collectable when its enemy
/// was despawned this pass.
pub open spec fn ghost_after_cleanup(o: Option<GhostMarker>, orphaned: bool) -> Option<
    GhostMarker,
> {
    match o {
        None => None,
        Some(g) => if orphaned {
            Some(GhostMarker { enemy_gone: true, ..g })
        } else {
            Some(g)
        },
    }
}

/// The score earned by the first `upto` enemy slots in the cleanup pass:
/// the per-kill value for every destroyed enemy except the shield's silent
/// kills.
pub open spec fn score_gain(es: Seq<Option<Enemy>>, kill_score: u32, upto: int) -> int
    decreases upto,
{
    if upto <= 0 {
        0
    } else {
        score_gain(es, kill_score, upto - 1) + (if es[upto - 1] matches Some(e) && e.destroyed
            && !e.shield_kill {
            kill_score as int
        } else {
            0int
        })
    }
}

/// The score events emitted by the first `upto` enemy slots in the cleanup
/// pass, parallel to `score_gain`.
pub open spec fn score_events(es: Seq<Option<Enemy>>, kill_score: u32, upto: int) -> Seq<GameEvent>
    decreases upto,
{
    if upto <= 0 {
        Seq::empty()
    } else {
        let rest = score_events(es, kill_score, upto - 1);
        if es[upto - 1] matches Some(e) && e.destroyed && !e.shield_kill {
            rest.push(GameEvent::ScoreChanged(kill_score))
        } else {
            rest
        }
    }
}

/// An enemy slot after the planet pass: a listed enemy despawns on impact.
pub open spec fn enemy_after_planet(o: Option<Enemy>, listed: bool) -> Option<Enemy> {
    match o {
        None => None,
        Some(e) => if listed {
            None
        } else {
            Some(e)
        },
    }
}

/// True iff ghost `j` belongs to an alive enemy listed in the planet
/// contacts: that ghost despawns with its enemy.
pub open spec fn ghost_hit_by_planet(eids: Seq<usize>, es: Seq<Option<Enemy>>, j: int) -> bool {
    exists|k: int|
        0 <= k < eids.len() && (#[trigger] eids[k]) < es.len() && (es[eids[k] as int] matches Some(
            e,
        ) && e.ghost_id == j)
}

/// Extending the processed planet-contact prefix by one despawns exactly the
/// listed enemy's ghost (when that enemy is alive) and no other.
proof fn lemma_ghost_planet_extend(eids: Seq<usize>, es: Seq<Option<Enemy>>, k: int)
    requires
        0 <= k < eids.len(),
    ensures
        forall|j: int|
            ghost_hit_by_planet(eids.take(k), es, j) ==> ghost_hit_by_planet(
                eids.take(k + 1),
                es,
                j,
            ),
        forall|j: int|
            ghost_hit_by_planet(eids.take(k + 1), es, j) ==> (ghost_hit_by_planet(
                eids.take(k),
                es,
                j,
            ) || (eids[k] < es.len() && (es[eids[k] as int] matches Some(e) && e.ghost_id == j))),
        (eids[k] < es.len() && es[eids[k] as int] is Some) ==> ghost_hit_by_planet(
            eids.take(k + 1),
            es,
            (es[eids[k] as int]->Some_0).ghost_id as int,
        ),
{
    assert forall|j: int|
        ghost_hit_by_planet(eids.take(k), es, j) implies ghost_hit_by_planet(
        eids.take(k + 1),
        es,
        j,
    ) by {
        let w = choose|w: int|
            0 <= w < eids.take(k).len() && (#[trigger] eids.take(k)[w]) < es.len() && (es[eids.take(
                k,
            )[w] as int] matches Some(e) && e.ghost_id == j);
        assert(eids.take(k + 1)[w] == eids.take(k)[w]);
    }
    assert forall|j: int|
        ghost_hit_by_planet(eids.take(k + 1), es, j) implies (ghost_hit_by_planet(
        eids.take(k),
        es,
        j,
    ) || (eids[k] < es.len() && (es[eids[k] as int] matches Some(e) && e.ghost_id == j))) by {
        let w = choose|w: int|
            0 <= w < eids.take(k + 1).len() && (#[trigger] eids.take(k + 1)[w]) < es.len() && (
            es[eids.take(k + 1)[w] as int] matches Some(e) && e.ghost_id == j);
        if w < k {
            assert(eids.take(k)[w] == eids.take(k + 1)[w]);
        } else {
            assert(eids.take(k + 1)[w] == eids[k]);
        }
    }
    if eids[k] < es.len() && es[eids[k] as int] is Some {
        assert(eids.take(k + 1)[k] == eids[k]);
    }
}

/// The planet pass over the first `upto` listed contacts: the events emitted
/// (planet damaged per impact, game over when health runs out) and the
/// health remaining. Health clamps at zero; an impact on a dead planet still
/// reports the terminal transition.
pub open spec fn planet_fold(
    eids: Seq<usize>,
    es: Seq<Option<Enemy>>,
    health: u32,
    upto: int,
) -> (Seq<GameEvent>, u32)
    decreases upto,
{
    if upto <= 0 {
        (Seq::empty(), health)
    } else {
        let (evs, h) = planet_fold(eids, es, health, upto - 1);
        if eids[upto - 1] < es.len() && es[eids[upto - 1] as int] is Some {
            if h <= 1 {
                (evs.push(GameEvent::PlanetDamaged).push(GameEvent::GameOver), 0u32)
            } else {
                (evs.push(GameEvent::PlanetDamaged), (h - 1) as u32)
            }
        } else {
            (evs, h)
        }
    }
}

/// How many of the first `upto` scan slots are alive.
pub open spec fn alive_scans(ss: Seq<Option<Scan>>, upto: int) -> int
    decreases upto,
{
    if upto <= 0 {
        0
    } else {
        alive_scans(ss, upto - 1) + (if ss[upto - 1] is Some {
            1int
        } else {
            0int
        })
    }
}

/// How many of the first `upto` enemy slots are alive.
pub open spec fn alive_enemies(es: Seq<Option<Enemy>>, upto: int) -> int
    decreases upto,
{
    if upto <= 0 {
        0
    } else {
        alive_enemies(es, upto - 1) + (if es[upto - 1] is Some {
            1int
        } else {
            0int
        })
    }
}

} // verus!


verus! {

/// The overlap reports as mathematics.
pub struct ContactModel {
    pub missile_enemy: Seq<(usize, usize)>,
    pub scan_enemy: Seq<(usize, usize)>,
    pub scan_ghost: Seq<(usize, usize)>,
    pub shield_enemy: Seq<usize>,
    pub planet_enemy: Seq<usize>,
}

impl ContactReports {
    pub open spec fn model(self) -> ContactModel {
        ContactModel {
            missile_enemy: self.missile_enemy@,
            scan_enemy: self.scan_enemy@,
            scan_ghost: self.scan_ghost@,
            shield_enemy: self.shield_enemy@,
            planet_enemy: self.planet_enemy@,
        }
    }
}

/// The world as mathematics: the same state with the arenas as sequences,
/// so whole-world transitions can be stated as spec functions.
#[verifier::ext_equal]
pub struct WorldModel {
    pub stats: PlayerStats,
    pub enemy_stats: EnemyStats,
    pub field: SpawnField,
    pub shield: ShieldState,
    pub enemies: Seq<Option<Enemy>>,
    pub ghosts: Seq<Option<GhostMarker>>,
    pub missiles: Seq<Option<Missile>>,
    pub markers: Seq<Option<TargetMarker>>,
    pub scans: Seq<Option<Scan>>,
    pub difficulty_timer_ms: u64,
    pub wave_timer_ms: u64,
    pub events: Seq<GameEvent>,
}

impl GameWorld {
    pub open spec fn model(self) -> WorldModel {
        WorldModel {
            stats: self.stats,
            enemy_stats: self.enemy_stats,
            field: self.field,
            shield: self.shield,
            enemies: self.enemies@,
            ghosts: self.ghosts@,
            missiles: self.missiles@,
            markers: self.markers@,
            scans: self.scans@,
            difficulty_timer_ms: self.difficulty_timer_ms,
            wave_timer_ms: self.wave_timer_ms,
            events: self.events@,
        }
    }
}

// ----------------------------------------------------------------------
// The tick's phases as whole-world transitions. Each mirrors the exec
// function of the same name, whose contract ties the two together.

/// One missile fired (when paid for, or free).
pub open spec fn fire_missile_spec(m: WorldModel, target: Vec2i, is_free: bool) -> WorldModel {
    if m.stats.current_energy >= m.stats.missile_energy_cost || is_free {
        WorldModel {
            stats: if is_free {
                m.stats
            } else {
                PlayerStats {
                    current_energy: (m.stats.current_energy - m.stats.missile_energy_cost) as u32,
                    ..m.stats
                }
            },
            markers: m.markers.push(Some(TargetMarker { pos: target })),
            missiles: m.missiles.push(
                Some(
                    Missile::launch_spec(
                        target,
                        m.stats.missile_speed,
                        m.markers.len() as usize,
                        is_free,
                    ),
                ),
            ),
            ..m
        }
    } else {
        m
    }
}

/// A fire-missile action: the paid lead, and with the cluster upgrade four
/// free sub-missiles at the axis offsets around the target.
pub open spec fn handle_fire_missile_spec(m: WorldModel, target: Vec2i) -> WorldModel {
    let m1 = fire_missile_spec(m, target, false);
    if m.stats.is_cluster_missile_upgrade {
        let d = if m.stats.is_larger_missiles_upgrade {
            LARGER_CLUSTER_OFFSET
        } else {
            CLUSTER_OFFSET
        };
        let m2 = fire_missile_spec(m1, Vec2i { x: target.x, y: (target.y + d) as i64 }, true);
        let m3 = fire_missile_spec(m2, Vec2i { x: target.x, y: (target.y - d) as i64 }, true);
        let m4 = fire_missile_spec(m3, Vec2i { x: (target.x + d) as i64, y: target.y }, true);
        fire_missile_spec(m4, Vec2i { x: (target.x - d) as i64, y: target.y }, true)
    } else {
        m1
    }
}

/// A scan action: paid for and spawned at the planet, or nothing.
pub open spec fn fire_scan_spec(m: WorldModel) -> WorldModel {
    if m.stats.current_energy >= m.stats.scan_energy_cost {
        WorldModel {
            stats: PlayerStats {
                current_energy: (m.stats.current_energy - m.stats.scan_energy_cost) as u32,
                auto_scan_timer_ms: 0,
                ..m.stats
            },
            scans: m.scans.push(
                Some(Scan::spawned_spec(Vec2i::origin_spec(), SCAN_MAX_RADIUS_MICRO)),
            ),
            ..m
        }
    } else {
        m
    }
}

/// A shield toggle request.
pub open spec fn toggle_shield_spec(m: WorldModel, on: bool) -> WorldModel {
    WorldModel {
        shield: m.shield.toggle_spec(on, m.stats).0,
        stats: m.shield.toggle_spec(on, m.stats).1,
        ..m
    }
}

/// One consumed action event.
pub open spec fn input_spec(m: WorldModel, ev: InputEvent) -> WorldModel {
    match ev {
        InputEvent::FireMissile(target) => handle_fire_missile_spec(m, target),
        InputEvent::Scan => fire_scan_spec(m),
        InputEvent::Shield(on) => toggle_shield_spec(m, on),
    }
}

/// The first `upto` action events consumed in order.
pub open spec fn inputs_fold_spec(m: WorldModel, inputs: Seq<InputEvent>, upto: int) -> WorldModel
    decreases upto,
{
    if upto <= 0 {
        m
    } else {
        input_spec(inputs_fold_spec(m, inputs, upto - 1), inputs[upto - 1])
    }
}

/// The automatic-scan timer, firing a scan when it elapses.
pub open spec fn auto_scan_phase_spec(m: WorldModel, dt: u32) -> WorldModel {
    let m1 = WorldModel { stats: PlayerStats::auto_scan_spec(m.stats, dt).0, ..m };
    if PlayerStats::auto_scan_spec(m.stats, dt).1 {
        fire_scan_spec(m1)
    } else {
        m1
    }
}

/// The missile pass: every missile advances, despawning ones leave with
/// their markers and settle their refunds.
pub open spec fn update_missiles_spec(m: WorldModel, dt: u32) -> WorldModel {
    WorldModel {
        missiles: Seq::new(m.missiles.len(), |i: int| missile_step(m.missiles[i], dt)),
        markers: Seq::new(
            m.markers.len(),
            |j: int|
                if marker_freed(m.missiles, dt, j) {
                    None
                } else {
                    m.markers[j]
                },
        ),
        stats: PlayerStats {
            current_energy: vstd::math::min(
                m.stats.max_energy as int,
                m.stats.current_energy + refunds(
                    m.missiles,
                    dt,
                    m.stats.is_energy_vampire_upgrade,
                    m.missiles.len() as int,
                ),
            ) as u32,
            ..m.stats
        },
        ..m
    }
}

/// The missile-enemy adjudication.
pub open spec fn apply_missile_contacts_spec(
    m: WorldModel,
    pairs: Seq<(usize, usize)>,
) -> WorldModel {
    WorldModel {
        enemies: Seq::new(
            m.enemies.len(),
            |j: int| enemy_after_hit(m.enemies[j], enemy_hit(pairs, m.missiles, j)),
        ),
        missiles: Seq::new(
            m.missiles.len(),
            |j: int| missile_after_hit(m.missiles[j], missile_hit(pairs, m.enemies, j)),
        ),
        events: m.events + kill_events(pairs, m.missiles, m.enemies, pairs.len() as int),
        ..m
    }
}

/// The scan pass: every scan grows, full ones despawn.
pub open spec fn update_scans_spec(m: WorldModel, dt: u32) -> WorldModel {
    WorldModel {
        scans: Seq::new(
            m.scans.len(),
            |i: int| scan_step(m.scans[i], dt, m.stats.scan_speed),
        ),
        ..m
    }
}

/// The scan-contact adjudication: first touches tag enemies and ghosts.
pub open spec fn apply_scan_contacts_spec(
    m: WorldModel,
    enemy_pairs: Seq<(usize, usize)>,
    ghost_pairs: Seq<(usize, usize)>,
) -> WorldModel {
    WorldModel {
        enemies: Seq::new(
            m.enemies.len(),
            |j: int| enemy_after_scan(m.enemies[j], marked_by_pair(enemy_pairs, m.scans, j)),
        ),
        ghosts: Seq::new(
            m.ghosts.len(),
            |j: int| ghost_after_scan(m.ghosts[j], marked_by_pair(ghost_pairs, m.scans, j)),
        ),
        ..m
    }
}

/// The shield upkeep timer, while the shield is up.
pub open spec fn shield_upkeep_spec(m: WorldModel, dt: u32) -> WorldModel {
    if m.shield.is_active {
        WorldModel {
            shield: m.shield.upkeep_spec(dt, m.stats).0,
            stats: m.shield.upkeep_spec(dt, m.stats).1,
            ..m
        }
    } else {
        m
    }
}

/// The shield-contact adjudication: silent kills while the shield is up.
pub open spec fn apply_shield_contacts_spec(m: WorldModel, enemy_ids: Seq<usize>) -> WorldModel {
    if m.shield.is_active {
        WorldModel {
            enemies: Seq::new(
                m.enemies.len(),
                |j: int| enemy_after_shield(m.enemies[j], id_listed(enemy_ids, j)),
            ),
            ..m
        }
    } else {
        m
    }
}

/// The movement pass: every enemy's flight advances.
pub open spec fn move_enemies_spec(m: WorldModel, dt: u32) -> WorldModel {
    WorldModel {
        enemies: Seq::new(m.enemies.len(), |i: int| enemy_moved(m.enemies[i], dt)),
        ..m
    }
}

/// The dying-scanners reward for this tick's kill locations.
pub open spec fn handle_enemy_killed_spec(m: WorldModel, locations: Seq<Vec2i>) -> WorldModel {
    if alive_scans(m.scans, m.scans.len() as int) <= MAX_CONCURRENT_DYING_SCANS
        && m.stats.is_dying_scanners_upgrade {
        WorldModel {
            scans: m.scans + locations.map_values(
                |l: Vec2i| Some(Scan::spawned_spec(l, DYING_SCAN_MAX_RADIUS_MICRO)),
            ),
            ..m
        }
    } else {
        m
    }
}

/// The reveal pass: scanned enemies turn visible and move their ghosts to
/// their positions.
pub open spec fn reveal_spec(m: WorldModel) -> WorldModel {
    WorldModel {
        enemies: Seq::new(m.enemies.len(), |i: int| enemy_after_reveal(m.enemies[i])),
        ghosts: Seq::new(
            m.ghosts.len(),
            |j: int|
                if ghost_owner_where(m.enemies, j, |e: Enemy| e.scanned) {
                    let i = choose|i: int|
                        0 <= i < m.enemies.len() && ((#[trigger] m.enemies[i]) matches Some(e)
                            && e.scanned && e.ghost_id == j);
                    ghost_retarget(m.ghosts[j], (m.enemies[i]->Some_0).pos_spec())
                } else {
                    m.ghosts[j]
                },
        ),
        ..m
    }
}

/// The scanned-ghost resolution pass.
pub open spec fn resolve_ghosts_spec(m: WorldModel) -> WorldModel {
    WorldModel {
        ghosts: Seq::new(m.ghosts.len(), |j: int| ghost_resolved(m.ghosts[j])),
        ..m
    }
}

/// The reveal-timer pass.
pub open spec fn visibility_spec(m: WorldModel, dt: u32) -> WorldModel {
    WorldModel {
        enemies: Seq::new(m.enemies.len(), |i: int| enemy_vis_ticked(m.enemies[i], dt)),
        ..m
    }
}

/// The cleanup pass: destroyed enemies leave, their ghosts are flagged, and
/// non-silent kills score.
pub open spec fn cleanup_spec(m: WorldModel) -> WorldModel {
    let gain = score_gain(m.enemies, m.stats.enemy_kill_score, m.enemies.len() as int);
    WorldModel {
        enemies: Seq::new(m.enemies.len(), |i: int| enemy_after_cleanup(m.enemies[i])),
        ghosts: Seq::new(
            m.ghosts.len(),
            |j: int|
                ghost_after_cleanup(
                    m.ghosts[j],
                    ghost_owner_where(m.enemies, j, |e: Enemy| e.destroyed),
                ),
        ),
        stats: PlayerStats {
            current_points: vstd::math::min(
                u32::MAX as int,
                m.stats.current_points + gain,
            ) as u32,
            locked_score: vstd::math::min(u32::MAX as int, m.stats.locked_score + gain) as u32,
            ..m.stats
        },
        events: m.events + score_events(m.enemies, m.stats.enemy_kill_score, m.enemies.len() as int),
        ..m
    }
}

/// The planet-impact pass.
pub open spec fn planet_spec(m: WorldModel, enemy_ids: Seq<usize>) -> WorldModel {
    WorldModel {
        enemies: Seq::new(
            m.enemies.len(),
            |j: int| enemy_after_planet(m.enemies[j], id_listed(enemy_ids, j)),
        ),
        ghosts: Seq::new(
            m.ghosts.len(),
            |j: int|
                if ghost_hit_by_planet(enemy_ids, m.enemies, j) {
                    None
                } else {
                    m.ghosts[j]
                },
        ),
        stats: PlayerStats {
            current_health: planet_fold(
                enemy_ids,
                m.enemies,
                m.stats.current_health,
                enemy_ids.len() as int,
            ).1,
            ..m.stats
        },
        events: m.events + planet_fold(
            enemy_ids,
            m.enemies,
            m.stats.current_health,
            enemy_ids.len() as int,
        ).0,
        ..m
    }
}

/// The live-enemy recount.
pub open spec fn count_spec(m: WorldModel) -> WorldModel {
    WorldModel {
        enemy_stats: EnemyStats {
            current_enemy_amount: vstd::math::min(
                alive_enemies(m.enemies, m.enemies.len() as int),
                u32::MAX as int,
            ) as u32,
            ..m.enemy_stats
        },
        ..m
    }
}

/// The difficulty director's re-armed timer.
pub open spec fn difficulty_timer_spec(m: WorldModel, dt: u32) -> WorldModel {
    let t = m.difficulty_timer_ms.saturating_add(dt as u64);
    if t >= m.enemy_stats.time_between_waves_ms as u64 {
        WorldModel {
            difficulty_timer_ms: 0,
            enemy_stats: m.enemy_stats.tick_spec(m.stats.locked_score),
            ..m
        }
    } else {
        WorldModel { difficulty_timer_ms: t, ..m }
    }
}

/// The whole tick up to (but not including) the wave spawn, which alone
/// draws randomness: phases one to four and the deterministic part of phase
/// five, in their contractual order.
pub open spec fn tick_pre_spec(
    m: WorldModel,
    dt: u32,
    inputs: Seq<InputEvent>,
    c: ContactModel,
) -> WorldModel {
    let m1 = auto_scan_phase_spec(inputs_fold_spec(m, inputs, inputs.len() as int), dt);
    let m2a = update_missiles_spec(m1, dt);
    let m2b = apply_missile_contacts_spec(m2a, c.missile_enemy);
    let m2c = update_scans_spec(m2b, dt);
    let m2d = apply_scan_contacts_spec(m2c, c.scan_enemy, c.scan_ghost);
    let m2e = shield_upkeep_spec(m2d, dt);
    let m2f = apply_shield_contacts_spec(m2e, c.shield_enemy);
    let m3a = move_enemies_spec(m2f, dt);
    let kills = kill_positions(c.missile_enemy, m2a.missiles, m2a.enemies, c.missile_enemy.len() as int);
    let m3b = handle_enemy_killed_spec(m3a, kills);
    let m3c = resolve_ghosts_spec(reveal_spec(m3b));
    let m3e = visibility_spec(m3c, dt);
    let m4 = planet_spec(cleanup_spec(m3e), c.planet_enemy);
    let m5a = count_spec(m4);
    let m5b = WorldModel {
        stats: PlayerStats::energy_tick_spec(
            PlayerStats::health_tick_spec(PlayerStats::time_score_spec(m5a.stats, dt), dt),
            dt,
        ),
        ..m5a
    };
    difficulty_timer_spec(m5b, dt)
}

} // verus!
