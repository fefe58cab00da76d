//! Enemies and their paired ghosts. An enemy flies in a straight line from
//! its border spawn point toward the planet at the origin, at the speed the
//! difficulty director held when it spawned; its position is derived exactly
//! from its age. It is hidden until a scan reveals it, and a reveal lasts a
//! fixed duration. Every enemy is paired with a ghost marker that records
//! where it was last scanned.

use crate::geom::{scaled, scaled_spec, norm, sqrt_floor, Vec2i};
use vstd::prelude::*;

verus! {

/// How long a scanned enemy stays visible, in milliseconds.
pub const REVEAL_DURATION_MS: u64 = 1_000;

/// The enemy's collision radius, in milli-units (5 world units).
pub const ENEMY_RADIUS: u64 = 5_000;

/// The planet's collision radius, in milli-units (8 world units).
pub const PLANET_RADIUS: u64 = 8_000;

/// An invader headed for the planet.
#[derive(Clone, Copy, Debug, PartialEq, Eq, Structural)]
pub struct Enemy {
    /// Where it appeared on the border.
    pub spawn: Vec2i,
    /// Distance from the spawn point to the origin at spawn, in milli-units.
    pub dist: u64,
    /// Flight speed fixed at spawn, in milli-units per second.
    pub speed: u32,
    /// Time spent flying toward the planet.
    pub age_ms: u64,
    /// Arena id of the paired ghost marker.
    pub ghost_id: usize,
    /// Set by a scan contact this tick; consumed by the reveal pass.
    pub scanned: bool,
    /// Marked for removal by the cleanup pass this tick.
    pub destroyed: bool,
    /// Set when the shield destroyed it: such a kill earns no score.
    pub shield_kill: bool,
    pub visible: bool,
    /// Reveal time remaining, while the enemy is revealed.
    pub reveal_timer_ms: Option<u64>,
}

/// The passive marker at an enemy's last scanned position. Invisible to the
/// game until scanned itself; once its enemy is destroyed it becomes
/// collectable, and the next scan touching it clears it away.
#[derive(Clone, Copy, Debug, PartialEq, Eq, Structural)]
pub struct GhostMarker {
    pub pos: Vec2i,
    /// Set when the paired enemy has been destroyed.
    pub enemy_gone: bool,
    /// Set by a scan contact this tick; consumed by the reveal pass.
    pub scanned: bool,
}

impl GhostMarker {
    pub fn new(pos: Vec2i) -> (g: GhostMarker)
        requires
            pos.in_bounds(),
        ensures
            g == (GhostMarker { pos, enemy_gone: false, scanned: false }),
    {
        GhostMarker { pos, enemy_gone: false, scanned: false }
    }
}

impl Enemy {
    pub open spec fn wf(self) -> bool {
        &&& self.spawn.in_bounds()
        &&& 1 <= self.speed <= 2_000_000_000
        &&& self.dist <= 2_000_000_000
        &&& self.dist * self.dist <= self.spawn.len_sq() < (self.dist + 1) * (self.dist + 1)
        &&& (self.dist == 0) == (self.spawn == Vec2i::origin_spec())
    }

    /// A freshly spawned enemy, fully determined by its arguments: the
    /// distance is the floor square root of the spawn point's squared
    /// length.
    pub open spec fn spawn_spec(spawn_location: Vec2i, speed: u32, ghost_id: usize) -> Enemy {
        Enemy {
            spawn: spawn_location,
            dist: sqrt_floor(spawn_location.len_sq()) as u64,
            speed,
            age_ms: 0,
            ghost_id,
            scanned: false,
            destroyed: false,
            shield_kill: false,
            visible: false,
            reveal_timer_ms: None,
        }
    }

    /// Create an enemy at `spawn_location` aimed straight at the origin. The
    /// difficulty's speed is read once; later growth does not steer enemies
    /// already flying.
    pub fn spawn(spawn_location: Vec2i, speed: u32, ghost_id: usize) -> (e: Enemy)
        requires
            spawn_location.in_bounds(),
            1 <= speed <= 2_000_000_000,
        ensures
            e.wf(),
            e == Enemy::spawn_spec(spawn_location, speed, ghost_id),
    {
        let dist = norm(spawn_location);
        Enemy {
            spawn: spawn_location,
            dist,
            speed,
            age_ms: 0,
            ghost_id,
            scanned: false,
            destroyed: false,
            shield_kill: false,
            visible: false,
            reveal_timer_ms: None,
        }
    }

    /// How far toward the origin the enemy has come, capped at the full
    /// distance.
    pub open spec fn travelled_spec(self) -> int {
        let t = self.speed * self.age_ms / 1000;
        if t > self.dist {
            self.dist as int
        } else {
            t
        }
    }

    /// The enemy's exact position: the point of its straight segment with
    /// `dist - travelled` milli-units still to go.
    pub open spec fn pos_spec(self) -> Vec2i {
        if self.dist == 0 {
            self.spawn
        } else {
            Vec2i {
                x: scaled_spec(
                    self.spawn.x as int,
                    self.dist - self.travelled_spec(),
                    self.dist as int,
                ) as i64,
                y: scaled_spec(
                    self.spawn.y as int,
                    self.dist - self.travelled_spec(),
                    self.dist as int,
                ) as i64,
            }
        }
    }

    /// The enemy's current position.
    pub fn position(&self) -> (p: Vec2i)
        requires
            self.wf(),
        ensures
            p == self.pos_spec(),
            p.in_bounds(),
    {
        if self.dist == 0 {
            self.spawn
        } else {
            proof {
                assert(self.speed as int * self.age_ms as int <= u128::MAX) by (nonlinear_arith)
                    requires
                        self.speed <= 2_000_000_000,
                        self.age_ms <= 18_446_744_073_709_551_615u64,
                ;
            }
            let t: u128 = self.speed as u128 * self.age_ms as u128 / 1000;
            let travelled: u64 = if t > self.dist as u128 {
                self.dist
            } else {
                t as u64
            };
            let remaining: u64 = self.dist - travelled;
            Vec2i {
                x: scaled(self.spawn.x, remaining, self.dist),
                y: scaled(self.spawn.y, remaining, self.dist),
            }
        }
    }

    /// Advance the flight by `dt` milliseconds.
    pub fn move_tick(&mut self, dt: u32)
        requires
            old(self).wf(),
        ensures
            final(self).wf(),
            *final(self) == (Enemy {
                age_ms: old(self).age_ms.saturating_add(dt as u64),
                ..*old(self)
            }),
    {
        self.age_ms = self.age_ms.saturating_add(dt as u64);
    }

    /// Tick the reveal timer down, if one is running: when it elapses, the
    /// enemy turns invisible again and the timer is removed.
    pub fn visibility_tick(&mut self, dt: u32)
        requires
            old(self).wf(),
        ensures
            final(self).wf(),
            *final(self) == (match old(self).reveal_timer_ms {
                Some(rem) => {
                    if rem <= dt as u64 {
                        Enemy { visible: false, reveal_timer_ms: None::<u64>, ..*old(self) }
                    } else {
                        Enemy {
                            reveal_timer_ms: Some((rem - dt as u64) as u64),
                            ..*old(self)
                        }
                    }
                },
                None => *old(self),
            }),
    {
        match self.reveal_timer_ms {
            Some(rem) => {
                if rem <= dt as u64 {
                    self.visible = false;
                    self.reveal_timer_ms = None;
                } else {
                    self.reveal_timer_ms = Some(rem - dt as u64);
                }
            },
            None => {},
        }
    }
}

} // verus!
