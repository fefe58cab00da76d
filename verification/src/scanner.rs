//! The scan pipeline's transient entity: an expanding circle that reveals
//! whatever it first touches. The radius is held in micro-units (milli-units
//! times a thousand) so that growing by the scan-speed stat for a whole
//! number of milliseconds is exact integer arithmetic.

use crate::geom::Vec2i;
use vstd::prelude::*;

verus! {

/// A scan starts at this radius (20 world units), in micro-units.
pub const SCAN_INITIAL_RADIUS_MICRO: u64 = 20_000_000;

/// A player-fired scan despawns at this radius (1000 world units).
pub const SCAN_MAX_RADIUS_MICRO: u64 = 1_000_000_000;

/// A dying-scanner burst despawns at this radius (50 world units).
pub const DYING_SCAN_MAX_RADIUS_MICRO: u64 = 50_000_000;

/// No dying-scanner burst spawns while more scans than this are alive.
pub const MAX_CONCURRENT_DYING_SCANS: usize = 5;

/// An expanding scan circle.
#[derive(Clone, Copy, Debug, PartialEq, Eq, Structural)]
pub struct Scan {
    pub center: Vec2i,
    /// Current radius in micro-units; grows every tick.
    pub radius_micro: u64,
    /// The scan despawns once the radius reaches this.
    pub max_radius_micro: u64,
}

impl Scan {
    pub open spec fn wf(self) -> bool {
        &&& self.center.in_bounds()
        &&& self.max_radius_micro <= SCAN_MAX_RADIUS_MICRO
    }

    /// A freshly spawned scan: at `center`, at the initial radius, growing
    /// until `max_radius_micro`.
    pub open spec fn spawned_spec(center: Vec2i, max_radius_micro: u64) -> Scan {
        Scan { center, radius_micro: SCAN_INITIAL_RADIUS_MICRO, max_radius_micro }
    }

    /// Spawn a scan at `center` that will grow until `max_radius_micro`.
    pub fn new(center: Vec2i, max_radius_micro: u64) -> (s: Scan)
        requires
            center.in_bounds(),
            max_radius_micro <= SCAN_MAX_RADIUS_MICRO,
        ensures
            s == Scan::spawned_spec(center, max_radius_micro),
            s.wf(),
    {
        Scan { center, radius_micro: SCAN_INITIAL_RADIUS_MICRO, max_radius_micro }
    }

    /// The scan one tick later: the radius grows by the current scan speed
    /// (milli-units per second) for `dt` milliseconds, saturating rather
    /// than wrapping.
    pub open spec fn update_spec(self, dt: u32, scan_speed: u32) -> Scan {
        Scan {
            radius_micro: self.radius_micro.saturating_add(
                (scan_speed * dt) as u64,
            ),
            ..self
        }
    }

    /// Grow the scan by one tick at the current scan-speed stat (the stat is
    /// re-read every tick, so speed upgrades widen scans already running).
    /// Returns true iff the radius has reached its maximum: the scan must
    /// despawn this tick.
    pub fn update(&mut self, dt: u32, scan_speed: u32) -> (despawn: bool)
        requires
            old(self).wf(),
            scan_speed <= 2_000_000_000,
        ensures
            final(self).wf(),
            *final(self) == old(self).update_spec(dt, scan_speed),
            despawn == (final(self).radius_micro >= final(self).max_radius_micro),
    {
        proof {
            assert(scan_speed as int * dt as int <= 9_000_000_000_000_000_000int)
                by (nonlinear_arith)
                requires
                    scan_speed <= 2_000_000_000,
                    dt <= 4_294_967_295u32,
            ;
        }
        let grow: u64 = scan_speed as u64 * dt as u64;
        self.radius_micro = self.radius_micro.saturating_add(grow);
        self.radius_micro >= self.max_radius_micro
    }

    /// The scan's collision radius in milli-units.
    pub fn radius_milli(&self) -> (r: u64)
        ensures
            r == self.radius_micro as int / 1000,
    {
        self.radius_micro / 1000
    }
}

/// The scan after `n` ticks of `dt` milliseconds at a constant scan speed.
pub open spec fn scan_update_iter(s: Scan, dt: u32, scan_speed: u32, n: nat) -> Scan
    decreases n,
{
    if n == 0 {
        s
    } else {
        scan_update_iter(s.update_spec(dt, scan_speed), dt, scan_speed, (n - 1) as nat)
    }
}

/// Over any run of ticks at a constant speed, the radius is exactly the
/// starting radius plus speed times elapsed time, and nothing else changes.
/// So a scan reaches its despawn radius on the first tick that carries
/// `speed * elapsed` past `max - start` — for a full scan at the base speed
/// (20 to 1000 units at 50 per second) that is 19.6 simulated seconds, within
/// one tick of the nominal 20.
/// A freshly fired full scan at the base speed — 50 units per second,
/// growing from 20 toward 1000 units — has reached its despawn radius after
/// any run of equal ticks totalling at least 19.6 simulated seconds: within
/// one tick of the nominal 20.
pub proof fn lemma_base_scan_despawns_in_time(center: Vec2i, dt: u32, n: nat)
    requires
        1 <= dt,
        n * (dt as int) >= 19_600,
        SCAN_INITIAL_RADIUS_MICRO + n * (50_000 * dt) <= u64::MAX,
    ensures
        scan_update_iter(
            Scan::spawned_spec(center, SCAN_MAX_RADIUS_MICRO),
            dt,
            50_000,
            n,
        ).radius_micro >= SCAN_MAX_RADIUS_MICRO,
{
    let s = Scan::spawned_spec(center, SCAN_MAX_RADIUS_MICRO);
    lemma_scan_radius_growth(s, dt, 50_000, n);
    assert(n * ((50_000u32 * dt) as int) >= 980_000_000) by (nonlinear_arith)
        requires
            n * (dt as int) >= 19_600,
    ;
}

pub proof fn lemma_scan_radius_growth(s: Scan, dt: u32, scan_speed: u32, n: nat)
    requires
        s.radius_micro + n * (scan_speed * dt) <= u64::MAX,
    ensures
        scan_update_iter(s, dt, scan_speed, n).radius_micro
            == s.radius_micro + n * ((scan_speed * dt) as int),
        scan_update_iter(s, dt, scan_speed, n).center == s.center,
        scan_update_iter(s, dt, scan_speed, n).max_radius_micro == s.max_radius_micro,
    decreases n,
{
    if n == 0 {
        assert(n * ((scan_speed * dt) as int) == 0) by (nonlinear_arith)
            requires
                n == 0,
        ;
    } else {
        let s1 = s.update_spec(dt, scan_speed);
        assert(n * ((scan_speed * dt) as int) >= 1 * ((scan_speed * dt) as int))
            by (nonlinear_arith)
            requires
                n >= 1,
                scan_speed * dt >= 0,
        ;
        assert(s1.radius_micro == s.radius_micro + scan_speed * dt);
        assert(s1.radius_micro + (n - 1) * ((scan_speed * dt) as int)
            == s.radius_micro + n * ((scan_speed * dt) as int)) by (nonlinear_arith)
            requires
                s1.radius_micro == s.radius_micro + scan_speed * dt,
                n >= 1,
        ;
        lemma_scan_radius_growth(s1, dt, scan_speed, (n - 1) as nat);
    }
}

} // verus!
