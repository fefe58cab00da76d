//! The energy shield: a toggle, not a hold-to-charge. Turning it on costs
//! one upkeep charge and disables energy regeneration; while it stays on, an
//! upkeep tick fires every `shield_cost_interval_ms` and either pays the
//! charge or force-deactivates the shield and re-enables regeneration.

use crate::economy::PlayerStats;
use vstd::prelude::*;

verus! {

/// The shield sensor's collision radius, in milli-units (30 world units).
pub const SHIELD_RADIUS: u64 = 30_000;

/// The shield's own state; the economy holds the upkeep cost and interval.
#[derive(Clone, Copy, Debug, PartialEq, Eq, Structural)]
pub struct ShieldState {
    pub is_active: bool,
    /// Time accrued toward the next upkeep charge while active.
    pub time_till_next_cost_ms: u64,
}

impl ShieldState {
    pub open spec fn initial() -> ShieldState {
        ShieldState { is_active: false, time_till_next_cost_ms: 0 }
    }

    pub fn new() -> (s: ShieldState)
        ensures
            s == ShieldState::initial(),
    {
        ShieldState { is_active: false, time_till_next_cost_ms: 0 }
    }

    /// The toggle as mathematics: the shield state and stats after a toggle
    /// request.
    pub open spec fn toggle_spec(self, on: bool, stats: PlayerStats) -> (ShieldState, PlayerStats) {
        if on {
            if stats.current_energy >= stats.shield_energy_cost {
                (
                    ShieldState { is_active: true, time_till_next_cost_ms: 0 },
                    PlayerStats {
                        is_regaining_energy: false,
                        current_energy: (stats.current_energy - stats.shield_energy_cost) as u32,
                        ..stats
                    },
                )
            } else {
                (self, stats)
            }
        } else {
            (
                ShieldState { is_active: false, ..self },
                PlayerStats { is_regaining_energy: true, ..stats },
            )
        }
    }

    /// One upkeep tick as mathematics: the shield state and stats after the
    /// timer accrues `dt` (for an active shield).
    pub open spec fn upkeep_spec(self, dt: u32, stats: PlayerStats) -> (ShieldState, PlayerStats) {
        let t = self.time_till_next_cost_ms.saturating_add(dt as u64);
        if t < stats.shield_cost_interval_ms as u64 {
            (ShieldState { time_till_next_cost_ms: t, ..self }, stats)
        } else if stats.current_energy >= stats.shield_energy_cost {
            (
                ShieldState {
                    is_active: true,
                    time_till_next_cost_ms: (t - stats.shield_cost_interval_ms) as u64,
                },
                PlayerStats {
                    current_energy: (stats.current_energy - stats.shield_energy_cost) as u32,
                    ..stats
                },
            )
        } else {
            (
                ShieldState { is_active: false, time_till_next_cost_ms: t },
                PlayerStats { is_regaining_energy: true, ..stats },
            )
        }
    }

    /// True iff the shield sensor is up.
    pub fn is_shield_active(&self) -> (r: bool)
        ensures
            r == self.is_active,
    {
        self.is_active
    }

    /// Apply a shield toggle request. Turning it on succeeds iff the energy
    /// pool can pay one upkeep charge: the charge is spent, regeneration is
    /// disabled, the sensor activates and the upkeep timer restarts; with
    /// too little energy nothing changes. Turning it off always deactivates
    /// the sensor and re-enables regeneration at once, at no cost.
    pub fn toggle(&mut self, on: bool, stats: &mut PlayerStats)
        requires
            old(stats).wf(),
        ensures
            final(stats).wf(),
            *final(self) == old(self).toggle_spec(on, *old(stats)).0,
            *final(stats) == old(self).toggle_spec(on, *old(stats)).1,
    {
        if on {
            if stats.check_if_enough_energy(stats.shield_energy_cost) {
                stats.is_regaining_energy = false;
                self.is_active = true;
                self.time_till_next_cost_ms = 0;
                stats.shield_cost();
            }
        } else {
            stats.is_regaining_energy = true;
            self.is_active = false;
        }
    }

    /// One upkeep tick while the shield is active. The timer accrues `dt`;
    /// when it elapses the interval, either the pool pays one charge (the
    /// interval is taken off the timer and the shield stays up) or, with too
    /// little energy, the shield force-deactivates and regeneration
    /// re-enables within the same tick.
    pub fn upkeep_tick(&mut self, dt: u32, stats: &mut PlayerStats)
        requires
            old(self).is_active,
            old(stats).wf(),
        ensures
            final(stats).wf(),
            *final(self) == old(self).upkeep_spec(dt, *old(stats)).0,
            *final(stats) == old(self).upkeep_spec(dt, *old(stats)).1,
    {
        self.time_till_next_cost_ms = self.time_till_next_cost_ms.saturating_add(dt as u64);
        if self.time_till_next_cost_ms >= stats.shield_cost_interval_ms as u64 {
            if stats.check_if_enough_energy(stats.shield_energy_cost) {
                self.time_till_next_cost_ms =
                    self.time_till_next_cost_ms - stats.shield_cost_interval_ms as u64;
                stats.shield_cost();
            } else {
                stats.is_regaining_energy = true;
                self.is_active = false;
            }
        }
    }
}

} // verus!
