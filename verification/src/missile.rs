//! The missile pipeline's transient entities. A missile flies from the
//! planet at the origin straight toward its target point at the speed the
//! stats held when it was fired; its position is derived exactly from its
//! flight age. Reaching the target (within a small per-axis tolerance) or
//! touching an enemy turns it into an explosion, and a fixed delay later it
//! despawns together with its aim marker.

use crate::geom::{scaled, scaled_spec, norm, sqrt_floor, within_box, Vec2i};
use vstd::arithmetic::div_mod::{lemma_div_is_ordered, lemma_div_multiples_vanish};
use vstd::arithmetic::mul::lemma_mul_inequality;
use vstd::prelude::*;

verus! {

/// Per-axis closeness to the target that counts as arrival, in milli-units.
pub const MISSILE_TOLERANCE: i64 = 5_000;

/// How long an explosion lingers before the missile and its marker despawn.
pub const MISSILE_EXPLOSION_MS: u64 = 200;

/// Explosion radius in milli-units, and the larger-missiles variant.
pub const MISSILE_EXPLOSION_RADIUS: u64 = 8_000;

pub const LARGER_MISSILE_EXPLOSION_RADIUS: u64 = 12_000;

/// How far from the lead target the four cluster sub-missiles aim, in
/// milli-units, and the larger-missiles variant.
pub const CLUSTER_OFFSET: i64 = 20_000;

pub const LARGER_CLUSTER_OFFSET: i64 = 40_000;

/// The aim reticle paired with a missile; it lives exactly as long as the
/// missile does.
#[derive(Clone, Copy, Debug, PartialEq, Eq, Structural)]
pub struct TargetMarker {
    pub pos: Vec2i,
}

/// A missile in flight or exploding.
#[derive(Clone, Copy, Debug, PartialEq, Eq, Structural)]
pub struct Missile {
    pub target: Vec2i,
    /// Distance from the origin to the target at launch, in milli-units.
    pub dist: u64,
    /// Flight speed fixed at launch, in milli-units per second.
    pub speed: u32,
    /// Time spent travelling; frozen once the target is reached.
    pub flight_age_ms: u64,
    pub reached_target: bool,
    /// Time spent exploding, once the target is reached.
    pub explosion_age_ms: u64,
    /// Set when this missile destroyed an enemy; feeds the energy-vampire
    /// refund.
    pub enemy_killed: bool,
    /// Set for a cluster sub-missile: fired at no cost, and deliberately
    /// without the kill-refund plumbing the lead missile carries.
    pub is_free: bool,
    /// Arena id of the paired aim marker.
    pub marker_id: usize,
}

/// The explosion's collision radius under the current upgrades.
pub fn explosion_radius(larger_missiles: bool) -> (r: u64)
    ensures
        r == if larger_missiles { LARGER_MISSILE_EXPLOSION_RADIUS } else {
            MISSILE_EXPLOSION_RADIUS
        },
{
    if larger_missiles {
        LARGER_MISSILE_EXPLOSION_RADIUS
    } else {
        MISSILE_EXPLOSION_RADIUS
    }
}

impl Missile {
    pub open spec fn wf(self) -> bool {
        &&& self.target.in_bounds()
        &&& 1 <= self.speed <= 2_000_000_000
        &&& self.dist <= 2_000_000_000
        &&& self.dist * self.dist <= self.target.len_sq() < (self.dist + 1) * (self.dist + 1)
        &&& (self.dist == 0) == (self.target == Vec2i::origin_spec())
    }

    /// How far along its straight segment the missile has come, capped at
    /// the full distance.
    pub open spec fn travelled_spec(self) -> int {
        let t = self.speed * self.flight_age_ms / 1000;
        if t > self.dist {
            self.dist as int
        } else {
            t
        }
    }

    /// The missile's exact position: the point `travelled` milli-units from
    /// the origin along the segment to the target.
    pub open spec fn pos_spec(self) -> Vec2i {
        if self.dist == 0 {
            self.target
        } else {
            Vec2i {
                x: scaled_spec(
                    self.target.x as int,
                    self.travelled_spec(),
                    self.dist as int,
                ) as i64,
                y: scaled_spec(
                    self.target.y as int,
                    self.travelled_spec(),
                    self.dist as int,
                ) as i64,
            }
        }
    }

    /// True iff the missile currently sits within the arrival tolerance of
    /// its target on both axes.
    pub open spec fn at_target_spec(self) -> bool {
        let p = self.pos_spec();
        &&& -MISSILE_TOLERANCE <= p.x - self.target.x <= MISSILE_TOLERANCE
        &&& -MISSILE_TOLERANCE <= p.y - self.target.y <= MISSILE_TOLERANCE
    }

    /// A freshly launched missile, fully determined by its arguments: the
    /// distance is the floor square root of the target's squared length.
    pub open spec fn launch_spec(target: Vec2i, speed: u32, marker_id: usize, is_free: bool) -> Missile {
        Missile {
            target,
            dist: sqrt_floor(target.len_sq()) as u64,
            speed,
            flight_age_ms: 0,
            reached_target: false,
            explosion_age_ms: 0,
            enemy_killed: false,
            is_free,
            marker_id,
        }
    }

    /// Fire a missile from the planet at `target`. The speed is read once;
    /// later speed upgrades do not steer missiles already in flight.
    pub fn launch(target: Vec2i, speed: u32, marker_id: usize, is_free: bool) -> (m: Missile)
        requires
            target.in_bounds(),
            1 <= speed <= 2_000_000_000,
        ensures
            m.wf(),
            m == Missile::launch_spec(target, speed, marker_id, is_free),
            m.dist * m.dist <= target.len_sq() < (m.dist + 1) * (m.dist + 1),
    {
        let dist = norm(target);
        Missile {
            target,
            dist,
            speed,
            flight_age_ms: 0,
            reached_target: false,
            explosion_age_ms: 0,
            enemy_killed: false,
            is_free,
            marker_id,
        }
    }

    /// The missile's current position.
    pub fn position(&self) -> (p: Vec2i)
        requires
            self.wf(),
        ensures
            p == self.pos_spec(),
            p.in_bounds(),
    {
        if self.dist == 0 {
            self.target
        } else {
            proof {
                assert(self.speed as int * self.flight_age_ms as int
                    <= u128::MAX) by (nonlinear_arith)
                    requires
                        self.speed <= 2_000_000_000,
                        self.flight_age_ms <= 18_446_744_073_709_551_615u64,
                ;
            }
            let t: u128 = self.speed as u128 * self.flight_age_ms as u128 / 1000;
            let travelled: u64 = if t > self.dist as u128 {
                self.dist
            } else {
                t as u64
            };
            Vec2i {
                x: scaled(self.target.x, travelled, self.dist),
                y: scaled(self.target.y, travelled, self.dist),
            }
        }
    }

    /// The missile one tick later: while travelling, the flight age accrues
    /// and arrival within tolerance turns it into an explosion (freezing its
    /// position); while exploding, the explosion age accrues.
    pub open spec fn update_spec(self, dt: u32) -> Missile {
        if self.reached_target {
            Missile { explosion_age_ms: self.explosion_age_ms.saturating_add(dt as u64), ..self }
        } else {
            let moved = Missile {
                flight_age_ms: self.flight_age_ms.saturating_add(dt as u64),
                ..self
            };
            if moved.at_target_spec() {
                Missile { reached_target: true, ..moved }
            } else {
                moved
            }
        }
    }

    /// True iff this tick ends the explosion: the missile (and its marker)
    /// must despawn now.
    pub open spec fn despawn_spec(self, dt: u32) -> bool {
        self.reached_target
            && self.explosion_age_ms.saturating_add(dt as u64) >= MISSILE_EXPLOSION_MS
    }

    /// Advance the missile by `dt` milliseconds. Returns true iff the
    /// explosion has lingered its full delay and the missile must despawn
    /// this tick (the caller also despawns the paired marker and settles the
    /// energy-vampire refund).
    pub fn update(&mut self, dt: u32) -> (despawn: bool)
        requires
            old(self).wf(),
        ensures
            final(self).wf(),
            *final(self) == old(self).update_spec(dt),
            despawn == old(self).despawn_spec(dt),
    {
        if self.reached_target {
            self.explosion_age_ms = self.explosion_age_ms.saturating_add(dt as u64);
            self.explosion_age_ms >= MISSILE_EXPLOSION_MS
        } else {
            self.flight_age_ms = self.flight_age_ms.saturating_add(dt as u64);
            let p = self.position();
            if within_box(p, self.target, MISSILE_TOLERANCE) {
                self.reached_target = true;
            }
            false
        }
    }

    /// Record an enemy hit: the missile is forced into its explosion state
    /// immediately, wherever it is, and remembers the kill for the
    /// energy-vampire refund.
    pub fn mark_hit(&mut self)
        requires
            old(self).wf(),
        ensures
            final(self).wf(),
            *final(self) == (Missile {
                reached_target: true,
                enemy_killed: true,
                ..*old(self)
            }),
    {
        self.reached_target = true;
        self.enemy_killed = true;
    }
}

/// The missile after `n` ticks of `dt` milliseconds with no enemy contact.
pub open spec fn update_iter(m: Missile, dt: u32, n: nat) -> Missile
    decreases n,
{
    if n == 0 {
        m
    } else {
        update_iter(m.update_spec(dt), dt, (n - 1) as nat)
    }
}

/// Once reached, always reached: no later tick clears the explosion state.
pub proof fn lemma_reached_stays(m: Missile, dt: u32, n: nat)
    requires
        m.reached_target,
    ensures
        update_iter(m, dt, n).reached_target,
    decreases n,
{
    if n != 0 {
        lemma_reached_stays(m.update_spec(dt), dt, (n - 1) as nat);
    }
}

/// Scaling by the full fraction returns the coordinate exactly.
proof fn lemma_scaled_full(c: int, d: int)
    requires
        d >= 1,
    ensures
        scaled_spec(c, d, d) == c,
{
    if c >= 0 {
        lemma_div_multiples_vanish(c, d);
        assert(c * d == d * c) by (nonlinear_arith);
    } else {
        lemma_div_multiples_vanish(-c, d);
        assert(-c * d == d * -c) by (nonlinear_arith);
    }
}

/// A missile that has travelled its whole distance sits exactly on its
/// target, hence within the arrival tolerance.
pub proof fn lemma_full_travel_at_target(m: Missile)
    requires
        m.wf(),
        m.travelled_spec() == m.dist,
    ensures
        m.pos_spec() == m.target,
        m.at_target_spec(),
{
    if m.dist != 0 {
        lemma_scaled_full(m.target.x as int, m.dist as int);
        lemma_scaled_full(m.target.y as int, m.dist as int);
        assert(m.pos_spec() == m.target);
    }
}

/// A fired missile with no enemy in its path always reaches its target: once
/// enough simulated time has passed for its speed to cover its distance (and
/// ticks are not degenerate), it is in the explosion state.
pub proof fn lemma_missile_reaches(m: Missile, dt: u32, n: nat)
    requires
        m.wf(),
        dt >= 1,
        n >= 1,
        m.flight_age_ms + n * (dt as int) <= u64::MAX,
        m.speed * (m.flight_age_ms + n * (dt as int)) >= m.dist * 1000,
    ensures
        update_iter(m, dt, n).reached_target,
    decreases n,
{
    assert(n * (dt as int) >= 1 * (dt as int)) by (nonlinear_arith)
        requires
            n >= 1,
            dt >= 1,
    ;
    if m.reached_target {
        lemma_reached_stays(m, dt, n);
    } else {
        let m1 = m.update_spec(dt);
        assert(m1.flight_age_ms == m.flight_age_ms + dt);
        if m.speed * (m.flight_age_ms + dt) >= m.dist * 1000 {
            // One tick suffices: the travelled distance is already full.
            let age1 = m1.flight_age_ms as int;
            assert(m.speed * age1 >= m.dist * 1000) by (nonlinear_arith)
                requires
                    m.speed * (m.flight_age_ms + dt) >= m.dist * 1000,
                    age1 == m.flight_age_ms + dt,
            ;
            assert(m.speed * age1 / 1000 >= m.dist) by {
                lemma_div_is_ordered(m.dist as int * 1000, m.speed as int * age1, 1000);
                lemma_div_multiples_vanish(m.dist as int, 1000);
                assert(m.dist as int * 1000 == 1000 * m.dist as int) by (nonlinear_arith);
            }
            let moved = Missile { flight_age_ms: m1.flight_age_ms, ..m };
            assert(moved.travelled_spec() == moved.dist);
            lemma_full_travel_at_target(moved);
            assert(m1.reached_target);
            lemma_reached_stays(m1, dt, (n - 1) as nat);
        } else {
            assert(n >= 2) by {
                if n == 1 {
                    assert(n * (dt as int) == dt) by (nonlinear_arith)
                        requires
                            n == 1,
                    ;
                }
            }
            if m1.reached_target {
                lemma_reached_stays(m1, dt, (n - 1) as nat);
            } else {
                assert(m1.flight_age_ms + (n - 1) * (dt as int)
                    == m.flight_age_ms + n * (dt as int)) by (nonlinear_arith)
                    requires
                        m1.flight_age_ms == m.flight_age_ms + dt,
                        n >= 1,
                ;
                lemma_missile_reaches(m1, dt, (n - 1) as nat);
            }
        }
    }
}

/// While a reached missile waits out its explosion delay, the explosion age
/// is exactly the accumulated tick time, so it despawns on the first tick
/// that carries the total past the delay.
pub proof fn lemma_missile_explosion_age(m: Missile, dt: u32, n: nat)
    requires
        m.reached_target,
        m.explosion_age_ms + n * (dt as int) <= u64::MAX,
    ensures
        update_iter(m, dt, n).reached_target,
        update_iter(m, dt, n).explosion_age_ms == m.explosion_age_ms + n * (dt as int),
    decreases n,
{
    if n != 0 {
        let m1 = m.update_spec(dt);
        assert(n * (dt as int) >= 1 * (dt as int)) by (nonlinear_arith)
            requires
                n >= 1,
        ;
        assert(m1.explosion_age_ms == m.explosion_age_ms + dt);
        assert(m1.explosion_age_ms + (n - 1) * (dt as int)
            == m.explosion_age_ms + n * (dt as int)) by (nonlinear_arith)
            requires
                m1.explosion_age_ms == m.explosion_age_ms + dt,
                n >= 1,
        ;
        lemma_missile_explosion_age(m1, dt, (n - 1) as nat);
    } else {
        assert(n * (dt as int) == 0) by (nonlinear_arith)
            requires
                n == 0,
        ;
    }
}

} // verus!
