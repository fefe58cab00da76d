//! The player's resource economy: health, energy, the split score pools and
//! the upgrade rules. All mutators are pure state transitions with explicit
//! success/failure results; insufficiency is a failed `bool`, never a panic.

use vstd::prelude::*;

verus! {

/// Milli-units per second. Speed stats are held in thousandths of a world
/// unit so that the tunables (steps of 0.5, caps of 200.0 and the like) are
/// exact integers.
pub const SPEED_BOUND: u32 = 1_000_000_000;

/// The player's whole stat block. Times are milliseconds, speeds are
/// milli-units per second; `*_cap`/`*_floor`/`*_step` are the bounds and the
/// increment of the matching upgradable stat.
pub struct PlayerStats {
    pub is_auto_scan: bool,
    /// Time accumulated toward the next automatic scan.
    pub auto_scan_timer_ms: u64,
    /// Target time between automatic scans, user-adjustable.
    pub auto_scan_interval_ms: u32,
    pub auto_scan_interval_min_ms: u32,
    pub auto_scan_interval_max_ms: u32,

    pub current_health: u32,
    pub max_health: u32,
    pub health_recharge_interval_ms: u32,
    pub health_recharge_floor_ms: u32,
    pub health_recharge_step_ms: u32,
    pub health_timer_ms: u64,

    /// Cleared while the shield is active: the shield disables energy regen.
    pub is_regaining_energy: bool,
    pub max_energy: u32,
    pub current_energy: u32,
    pub energy_recharge_interval_ms: u32,
    pub energy_recharge_floor_ms: u32,
    pub energy_recharge_step_ms: u32,
    pub energy_timer_ms: u64,
    pub energy_per_recharge: u32,

    pub missile_speed: u32,
    pub missile_speed_cap: u32,
    pub missile_speed_step: u32,
    pub missile_energy_cost: u32,

    /// Spendable score pool.
    pub current_points: u32,
    /// Permanent score, immune to spending; the run's final result.
    pub locked_score: u32,
    pub score_timer_ms: u64,

    pub scan_speed: u32,
    pub scan_speed_cap: u32,
    pub scan_speed_step: u32,
    pub scan_energy_cost: u32,

    pub shield_energy_cost: u32,
    /// Time between shield upkeep charges while the shield is active.
    pub shield_cost_interval_ms: u32,

    pub enemy_kill_score: u32,

    pub max_energy_upgrade_cost: u32,
    pub energy_recharge_amount_upgrade_cost: u32,
    pub energy_recharge_rate_upgrade_cost: u32,
    pub missile_speed_upgrade_cost: u32,
    pub max_health_upgrade_cost: u32,
    pub current_health_increase_cost: u32,
    pub scan_speed_upgrade_cost: u32,
    pub shield_time_upgrade_cost: u32,

    pub is_cluster_missile_upgrade: bool,
    pub cluster_missile_upgrade_cost: u32,
    pub is_energy_vampire_upgrade: bool,
    pub energy_vampire_upgrade_cost: u32,
    pub is_dying_scanners_upgrade: bool,
    pub dying_scanners_upgrade_cost: u32,
    pub is_larger_missiles_upgrade: bool,
    pub larger_missiles_upgrade_cost: u32,

    /// All score ever spent or locked, for end-of-run display.
    pub all_time_score_count: u32,

    pub tutorial_panel: u32,
    pub max_tut_panel: u32,
}

impl PlayerStats {
    /// The stat block a fresh run starts from.
    pub open spec fn initial() -> PlayerStats {
        PlayerStats {
            is_auto_scan: false,
            auto_scan_timer_ms: 0,
            auto_scan_interval_ms: 5_000,
            auto_scan_interval_min_ms: 1_000,
            auto_scan_interval_max_ms: 10_000,

            current_health: 2,
            max_health: 2,
            health_recharge_interval_ms: 30_000,
            health_recharge_floor_ms: 1_000,
            health_recharge_step_ms: 1_000,
            health_timer_ms: 0,

            is_regaining_energy: true,
            max_energy: 6,
            current_energy: 6,
            energy_recharge_interval_ms: 4_000,
            energy_recharge_floor_ms: 400,
            energy_recharge_step_ms: 200,
            energy_timer_ms: 0,
            energy_per_recharge: 1,

            missile_speed: 100_000,
            missile_speed_cap: 500_000,
            missile_speed_step: 25_000,
            missile_energy_cost: 1,

            current_points: 40_000,
            locked_score: 0,
            score_timer_ms: 0,

            scan_speed: 50_000,
            scan_speed_cap: 200_000,
            scan_speed_step: 25_000,
            scan_energy_cost: 2,

            shield_energy_cost: 1,
            shield_cost_interval_ms: 1_000,

            enemy_kill_score: 5,

            max_energy_upgrade_cost: 15,
            energy_recharge_amount_upgrade_cost: 40,
            energy_recharge_rate_upgrade_cost: 20,
            missile_speed_upgrade_cost: 10,
            max_health_upgrade_cost: 20,
            current_health_increase_cost: 15,
            scan_speed_upgrade_cost: 10,
            shield_time_upgrade_cost: 10,

            is_cluster_missile_upgrade: false,
            cluster_missile_upgrade_cost: 200,
            is_energy_vampire_upgrade: false,
            energy_vampire_upgrade_cost: 200,
            is_dying_scanners_upgrade: false,
            dying_scanners_upgrade_cost: 200,
            is_larger_missiles_upgrade: false,
            larger_missiles_upgrade_cost: 200,

            all_time_score_count: 0,

            tutorial_panel: 0,
            max_tut_panel: 6,
        }
    }

    /// Well-formedness: energy and health never exceed their maxima (and, as
    /// unsigned values, are never negative), the recharge interval never sits
    /// below its floor, the speed tunables are bounded so upgrade arithmetic
    /// cannot overflow, and the tutorial cursor stays on a panel.
    pub open spec fn wf(self) -> bool {
        &&& self.current_energy <= self.max_energy
        &&& self.current_health <= self.max_health
        &&& self.energy_recharge_interval_ms >= self.energy_recharge_floor_ms
        &&& self.missile_speed_cap <= SPEED_BOUND
        &&& self.missile_speed_step <= SPEED_BOUND
        &&& 1 <= self.missile_speed <= self.missile_speed_cap
        &&& self.scan_speed_cap <= SPEED_BOUND
        &&& self.scan_speed_step <= SPEED_BOUND
        &&& 1 <= self.scan_speed <= self.scan_speed_cap
        &&& self.auto_scan_interval_min_ms <= self.auto_scan_interval_max_ms
        &&& self.auto_scan_interval_min_ms <= self.auto_scan_interval_ms
        &&& self.auto_scan_interval_ms <= self.auto_scan_interval_max_ms
        &&& self.tutorial_panel <= self.max_tut_panel
    }

    pub fn new() -> (s: PlayerStats)
        ensures
            s == PlayerStats::initial(),
            s.wf(),
    {
        PlayerStats {
            is_auto_scan: false,
            auto_scan_timer_ms: 0,
            auto_scan_interval_ms: 5_000,
            auto_scan_interval_min_ms: 1_000,
            auto_scan_interval_max_ms: 10_000,

            current_health: 2,
            max_health: 2,
            health_recharge_interval_ms: 30_000,
            health_recharge_floor_ms: 1_000,
            health_recharge_step_ms: 1_000,
            health_timer_ms: 0,

            is_regaining_energy: true,
            max_energy: 6,
            current_energy: 6,
            energy_recharge_interval_ms: 4_000,
            energy_recharge_floor_ms: 400,
            energy_recharge_step_ms: 200,
            energy_timer_ms: 0,
            energy_per_recharge: 1,

            missile_speed: 100_000,
            missile_speed_cap: 500_000,
            missile_speed_step: 25_000,
            missile_energy_cost: 1,

            current_points: 40_000,
            locked_score: 0,
            score_timer_ms: 0,

            scan_speed: 50_000,
            scan_speed_cap: 200_000,
            scan_speed_step: 25_000,
            scan_energy_cost: 2,

            shield_energy_cost: 1,
            shield_cost_interval_ms: 1_000,

            enemy_kill_score: 5,

            max_energy_upgrade_cost: 15,
            energy_recharge_amount_upgrade_cost: 40,
            energy_recharge_rate_upgrade_cost: 20,
            missile_speed_upgrade_cost: 10,
            max_health_upgrade_cost: 20,
            current_health_increase_cost: 15,
            scan_speed_upgrade_cost: 10,
            shield_time_upgrade_cost: 10,

            is_cluster_missile_upgrade: false,
            cluster_missile_upgrade_cost: 200,
            is_energy_vampire_upgrade: false,
            energy_vampire_upgrade_cost: 200,
            is_dying_scanners_upgrade: false,
            dying_scanners_upgrade_cost: 200,
            is_larger_missiles_upgrade: false,
            larger_missiles_upgrade_cost: 200,

            all_time_score_count: 0,

            tutorial_panel: 0,
            max_tut_panel: 6,
        }
    }

    // ------------------------------------------------------------------
    // Energy

    /// True iff the pool can pay `amount_needed` right now.
    pub fn check_if_enough_energy(&self, amount_needed: u32) -> (r: bool)
        ensures
            r == (self.current_energy >= amount_needed),
    {
        self.current_energy >= amount_needed
    }

    /// One recharge step: add `energy_per_recharge`, clamped at the maximum.
    /// Returns true iff the pool was clamped (it would have overfilled).
    pub fn recharge_energy(&mut self) -> (clamped: bool)
        requires
            old(self).wf(),
        ensures
            final(self).wf(),
            clamped == (old(self).current_energy + old(self).energy_per_recharge
                > old(self).max_energy),
            final(self).current_energy == if clamped {
                old(self).max_energy
            } else {
                (old(self).current_energy + old(self).energy_per_recharge) as u32
            },
            *final(self) == (PlayerStats {
                current_energy: final(self).current_energy,
                ..*old(self)
            }),
    {
        let sum: u64 = self.current_energy as u64 + self.energy_per_recharge as u64;
        if sum > self.max_energy as u64 {
            self.current_energy = self.max_energy;
            true
        } else {
            self.current_energy = sum as u32;
            false
        }
    }

    /// Refund a single point of energy (the energy-vampire reward), clamped
    /// at the maximum. Returns true iff the pool was clamped.
    pub fn plus_one_energy(&mut self) -> (clamped: bool)
        requires
            old(self).wf(),
        ensures
            final(self).wf(),
            clamped == (old(self).current_energy + 1 > old(self).max_energy),
            final(self).current_energy == if clamped {
                old(self).max_energy
            } else {
                (old(self).current_energy + 1) as u32
            },
            *final(self) == (PlayerStats {
                current_energy: final(self).current_energy,
                ..*old(self)
            }),
    {
        if self.current_energy >= self.max_energy {
            self.current_energy = self.max_energy;
            true
        } else {
            self.current_energy = self.current_energy + 1;
            false
        }
    }

    /// Pay for a missile launch. The caller must have checked the pool.
    pub fn missile_fired(&mut self)
        requires
            old(self).wf(),
            old(self).current_energy >= old(self).missile_energy_cost,
        ensures
            final(self).wf(),
            *final(self) == (PlayerStats {
                current_energy: (old(self).current_energy - old(self).missile_energy_cost) as u32,
                ..*old(self)
            }),
    {
        self.current_energy = self.current_energy - self.missile_energy_cost;
    }

    /// Pay for a scan and re-arm the automatic-scan timer. The caller must
    /// have checked the pool.
    pub fn scanner_fired(&mut self)
        requires
            old(self).wf(),
            old(self).current_energy >= old(self).scan_energy_cost,
        ensures
            final(self).wf(),
            *final(self) == (PlayerStats {
                current_energy: (old(self).current_energy - old(self).scan_energy_cost) as u32,
                auto_scan_timer_ms: 0,
                ..*old(self)
            }),
    {
        self.current_energy = self.current_energy - self.scan_energy_cost;
        self.auto_scan_timer_ms = 0;
    }

    /// Pay one shield upkeep charge. The caller must have checked the pool.
    pub fn shield_cost(&mut self)
        requires
            old(self).wf(),
            old(self).current_energy >= old(self).shield_energy_cost,
        ensures
            final(self).wf(),
            *final(self) == (PlayerStats {
                current_energy: (old(self).current_energy - old(self).shield_energy_cost) as u32,
                ..*old(self)
            }),
    {
        self.current_energy = self.current_energy - self.shield_energy_cost;
    }

    // ------------------------------------------------------------------
    // Health

    /// Restore one point of health if any is missing. Returns true iff a
    /// point was restored.
    pub fn heal(&mut self) -> (healed: bool)
        requires
            old(self).wf(),
        ensures
            final(self).wf(),
            healed == (old(self).current_health < old(self).max_health),
            *final(self) == (PlayerStats {
                current_health: if healed {
                    (old(self).current_health + 1) as u32
                } else {
                    old(self).current_health
                },
                ..*old(self)
            }),
    {
        if self.current_health < self.max_health {
            self.current_health = self.current_health + 1;
            true
        } else {
            false
        }
    }

    /// True iff health is full.
    pub fn check_energy_full_health(&self) -> (r: bool)
        ensures
            r == (self.current_health >= self.max_health),
    {
        self.current_health >= self.max_health
    }

    /// One point of planet damage, clamped at zero. Returns true iff health
    /// reached zero: the player is defeated.
    pub fn damage(&mut self) -> (defeated: bool)
        requires
            old(self).wf(),
        ensures
            final(self).wf(),
            defeated == (old(self).current_health <= 1),
            *final(self) == (PlayerStats {
                current_health: if old(self).current_health <= 1 {
                    0u32
                } else {
                    (old(self).current_health - 1) as u32
                },
                ..*old(self)
            }),
    {
        if self.current_health <= 1 {
            self.current_health = 0;
            true
        } else {
            self.current_health = self.current_health - 1;
            false
        }
    }

    // ------------------------------------------------------------------
    // Score

    /// Earn score: both the spendable pool and the permanent pool grow,
    /// saturating at the type's maximum rather than wrapping.
    pub fn add_score(&mut self, amount: u32)
        requires
            old(self).wf(),
        ensures
            final(self).wf(),
            *final(self) == (PlayerStats {
                current_points: old(self).current_points.saturating_add(amount),
                locked_score: old(self).locked_score.saturating_add(amount),
                ..*old(self)
            }),
    {
        self.current_points = self.current_points.saturating_add(amount);
        self.locked_score = self.locked_score.saturating_add(amount);
    }

    /// The stat block after `lock_remaining_score`: every spendable point
    /// moves into the permanent pool (and the all-time counter), leaving the
    /// spendable pool empty. Additions saturate rather than wrap.
    pub open spec fn lock_spec(s: PlayerStats) -> PlayerStats {
        PlayerStats {
            locked_score: s.locked_score.saturating_add(s.current_points),
            all_time_score_count: s.all_time_score_count.saturating_add(s.current_points),
            current_points: 0,
            ..s
        }
    }

    /// Move every remaining spendable point into the permanent pool.
    pub fn lock_remaining_score(&mut self) -> (r: bool)
        requires
            old(self).wf(),
        ensures
            final(self).wf(),
            r,
            *final(self) == PlayerStats::lock_spec(*old(self)),
    {
        self.locked_score = self.locked_score.saturating_add(self.current_points);
        self.all_time_score_count = self.all_time_score_count.saturating_add(self.current_points);
        self.current_points = 0;
        true
    }

    /// Locking twice in a row is a no-op the second time: once the spendable
    /// pool is empty, another lock moves nothing.
    pub proof fn lemma_lock_remaining_score_twice(s: PlayerStats)
        ensures
            PlayerStats::lock_spec(PlayerStats::lock_spec(s)) == PlayerStats::lock_spec(s),
    {
    }

    /// True iff the spendable pool can pay `cost`.
    pub fn check_if_enough_score(&self, cost: u32) -> (r: bool)
        ensures
            r == (self.current_points >= cost),
    {
        self.current_points >= cost
    }

    /// Take `amount` from the spendable pool, clamping at zero rather than
    /// wrapping below it.
    pub fn remove_score(&mut self, amount: u32)
        requires
            old(self).wf(),
        ensures
            final(self).wf(),
            *final(self) == (PlayerStats {
                current_points: old(self).current_points.saturating_sub(amount),
                ..*old(self)
            }),
    {
        self.current_points = self.current_points.saturating_sub(amount);
    }

    /// Checked spend: succeeds, and takes exactly `cost` from the spendable
    /// pool while recording it in the all-time counter, iff the pool holds at
    /// least `cost`; otherwise nothing changes.
    pub fn try_spend_score(&mut self, cost: u32) -> (r: bool)
        requires
            old(self).wf(),
        ensures
            final(self).wf(),
            r == (old(self).current_points >= cost),
            r ==> *final(self) == (PlayerStats {
                current_points: (old(self).current_points - cost) as u32,
                all_time_score_count: old(self).all_time_score_count.saturating_add(cost),
                ..*old(self)
            }),
            !r ==> *final(self) == *old(self),
    {
        if self.current_points >= cost {
            self.increase_all_time_score_count(cost);
            self.remove_score(cost);
            true
        } else {
            false
        }
    }

    /// Record score that has been spent or locked, saturating rather than
    /// wrapping.
    pub fn increase_all_time_score_count(&mut self, amount: u32)
        requires
            old(self).wf(),
        ensures
            final(self).wf(),
            *final(self) == (PlayerStats {
                all_time_score_count: old(self).all_time_score_count.saturating_add(amount),
                ..*old(self)
            }),
    {
        self.all_time_score_count = self.all_time_score_count.saturating_add(amount);
    }

    // ------------------------------------------------------------------
    // Upgrades. Each validates the score cost (and the stat's own guard),
    // and on success applies the effect, records the cost in the all-time
    // counter and takes it from the spendable pool; on failure it changes
    // nothing. The result tells the caller which cue to surface.

    /// Raise the energy cap by one (clamped at the type's maximum).
    pub fn upgrade_max_energy(&mut self) -> (r: bool)
        requires
            old(self).wf(),
        ensures
            final(self).wf(),
            r == (old(self).current_points >= old(self).max_energy_upgrade_cost),
            r ==> *final(self) == (PlayerStats {
                max_energy: old(self).max_energy.saturating_add(1),
                current_points: (old(self).current_points
                    - old(self).max_energy_upgrade_cost) as u32,
                all_time_score_count: old(self).all_time_score_count
                    .saturating_add(old(self).max_energy_upgrade_cost),
                ..*old(self)
            }),
            !r ==> *final(self) == *old(self),
    {
        if self.check_if_enough_score(self.max_energy_upgrade_cost) {
            self.max_energy = self.max_energy.saturating_add(1);
            let cost = self.max_energy_upgrade_cost;
            self.increase_all_time_score_count(cost);
            self.remove_score(cost);
            true
        } else {
            false
        }
    }

    /// Raise the amount recharged per energy tick by one (clamped at the
    /// type's maximum).
    pub fn upgrade_energy_charge(&mut self) -> (r: bool)
        requires
            old(self).wf(),
        ensures
            final(self).wf(),
            r == (old(self).current_points >= old(self).energy_recharge_amount_upgrade_cost),
            r ==> *final(self) == (PlayerStats {
                energy_per_recharge: old(self).energy_per_recharge.saturating_add(1),
                current_points: (old(self).current_points
                    - old(self).energy_recharge_amount_upgrade_cost) as u32,
                all_time_score_count: old(self).all_time_score_count
                    .saturating_add(old(self).energy_recharge_amount_upgrade_cost),
                ..*old(self)
            }),
            !r ==> *final(self) == *old(self),
    {
        if self.check_if_enough_score(self.energy_recharge_amount_upgrade_cost) {
            self.energy_per_recharge = self.energy_per_recharge.saturating_add(1);
            let cost = self.energy_recharge_amount_upgrade_cost;
            self.increase_all_time_score_count(cost);
            self.remove_score(cost);
            true
        } else {
            false
        }
    }

    /// Shorten the energy recharge interval by one step, never below its
    /// floor. Fails when the score is short or the interval is already at
    /// the floor.
    pub fn upgrade_energy_charge_speed(&mut self) -> (r: bool)
        requires
            old(self).wf(),
        ensures
            final(self).wf(),
            r == (old(self).current_points >= old(self).energy_recharge_rate_upgrade_cost
                && old(self).energy_recharge_interval_ms > old(self).energy_recharge_floor_ms),
            r ==> *final(self) == (PlayerStats {
                energy_recharge_interval_ms: if old(self).energy_recharge_interval_ms
                    >= old(self).energy_recharge_floor_ms + old(self).energy_recharge_step_ms {
                    (old(self).energy_recharge_interval_ms
                        - old(self).energy_recharge_step_ms) as u32
                } else {
                    old(self).energy_recharge_floor_ms
                },
                current_points: (old(self).current_points
                    - old(self).energy_recharge_rate_upgrade_cost) as u32,
                all_time_score_count: old(self).all_time_score_count
                    .saturating_add(old(self).energy_recharge_rate_upgrade_cost),
                ..*old(self)
            }),
            !r ==> *final(self) == *old(self),
    {
        if self.check_if_enough_score(self.energy_recharge_rate_upgrade_cost)
            && self.energy_recharge_interval_ms > self.energy_recharge_floor_ms
        {
            if self.energy_recharge_interval_ms as u64
                >= self.energy_recharge_floor_ms as u64 + self.energy_recharge_step_ms as u64
            {
                self.energy_recharge_interval_ms =
                    self.energy_recharge_interval_ms - self.energy_recharge_step_ms;
            } else {
                self.energy_recharge_interval_ms = self.energy_recharge_floor_ms;
            }
            let cost = self.energy_recharge_rate_upgrade_cost;
            self.increase_all_time_score_count(cost);
            self.remove_score(cost);
            true
        } else {
            false
        }
    }

    /// True iff the energy recharge interval sits at its floor.
    pub fn check_energy_recharge_speed_maxed(&self) -> (r: bool)
        ensures
            r == (self.energy_recharge_interval_ms <= self.energy_recharge_floor_ms),
    {
        self.energy_recharge_interval_ms <= self.energy_recharge_floor_ms
    }

    /// Raise the health cap by one (clamped at the type's maximum) and
    /// restore one missing point of health.
    pub fn upgrade_max_health(&mut self) -> (r: bool)
        requires
            old(self).wf(),
        ensures
            final(self).wf(),
            r == (old(self).current_points >= old(self).max_health_upgrade_cost),
            r ==> *final(self) == (PlayerStats {
                max_health: old(self).max_health.saturating_add(1),
                current_health: if old(self).current_health
                    < old(self).max_health.saturating_add(1) {
                    (old(self).current_health + 1) as u32
                } else {
                    old(self).current_health
                },
                current_points: (old(self).current_points
                    - old(self).max_health_upgrade_cost) as u32,
                all_time_score_count: old(self).all_time_score_count
                    .saturating_add(old(self).max_health_upgrade_cost),
                ..*old(self)
            }),
            !r ==> *final(self) == *old(self),
    {
        if self.check_if_enough_score(self.max_health_upgrade_cost) {
            self.max_health = self.max_health.saturating_add(1);
            self.heal();
            let cost = self.max_health_upgrade_cost;
            self.increase_all_time_score_count(cost);
            self.remove_score(cost);
            true
        } else {
            false
        }
    }

    /// Buy back one missing point of health. Fails when the score is short
    /// or health is already full.
    pub fn plus_current_health(&mut self) -> (r: bool)
        requires
            old(self).wf(),
        ensures
            final(self).wf(),
            r == (old(self).current_points >= old(self).current_health_increase_cost
                && old(self).current_health < old(self).max_health),
            r ==> *final(self) == (PlayerStats {
                current_health: (old(self).current_health + 1) as u32,
                current_points: (old(self).current_points
                    - old(self).current_health_increase_cost) as u32,
                all_time_score_count: old(self).all_time_score_count
                    .saturating_add(old(self).current_health_increase_cost),
                ..*old(self)
            }),
            !r ==> *final(self) == *old(self),
    {
        if self.check_if_enough_score(self.current_health_increase_cost)
            && self.current_health < self.max_health
        {
            self.current_health = self.current_health + 1;
            let cost = self.current_health_increase_cost;
            self.increase_all_time_score_count(cost);
            self.remove_score(cost);
            true
        } else {
            false
        }
    }

    /// Raise the scan growth speed by one step, never past the cap: an
    /// attempt at the cap is rejected even with sufficient score.
    pub fn upgrade_scan_speed(&mut self) -> (r: bool)
        requires
            old(self).wf(),
        ensures
            final(self).wf(),
            r == (old(self).current_points >= old(self).scan_speed_upgrade_cost
                && old(self).scan_speed < old(self).scan_speed_cap),
            r ==> *final(self) == (PlayerStats {
                scan_speed: if old(self).scan_speed + old(self).scan_speed_step
                    > old(self).scan_speed_cap {
                    old(self).scan_speed_cap
                } else {
                    (old(self).scan_speed + old(self).scan_speed_step) as u32
                },
                current_points: (old(self).current_points
                    - old(self).scan_speed_upgrade_cost) as u32,
                all_time_score_count: old(self).all_time_score_count
                    .saturating_add(old(self).scan_speed_upgrade_cost),
                ..*old(self)
            }),
            r ==> final(self).scan_speed <= final(self).scan_speed_cap,
            !r ==> *final(self) == *old(self),
    {
        if self.check_if_enough_score(self.scan_speed_upgrade_cost)
            && self.scan_speed < self.scan_speed_cap
        {
            if self.scan_speed as u64 + self.scan_speed_step as u64 > self.scan_speed_cap as u64 {
                self.scan_speed = self.scan_speed_cap;
            } else {
                self.scan_speed = self.scan_speed + self.scan_speed_step;
            }
            let cost = self.scan_speed_upgrade_cost;
            self.increase_all_time_score_count(cost);
            self.remove_score(cost);
            true
        } else {
            false
        }
    }

    /// True iff the scan growth speed has reached its cap.
    pub fn check_scan_speed_maxed(&self) -> (r: bool)
        ensures
            r == (self.scan_speed >= self.scan_speed_cap),
    {
        self.scan_speed >= self.scan_speed_cap
    }

    /// Lengthen the shield upkeep interval by one second (clamped at the
    /// type's maximum), so the shield drains energy more slowly.
    pub fn upgrade_shield_time(&mut self) -> (r: bool)
        requires
            old(self).wf(),
        ensures
            final(self).wf(),
            r == (old(self).current_points >= old(self).shield_time_upgrade_cost),
            r ==> *final(self) == (PlayerStats {
                shield_cost_interval_ms: old(self).shield_cost_interval_ms.saturating_add(1_000),
                current_points: (old(self).current_points
                    - old(self).shield_time_upgrade_cost) as u32,
                all_time_score_count: old(self).all_time_score_count
                    .saturating_add(old(self).shield_time_upgrade_cost),
                ..*old(self)
            }),
            !r ==> *final(self) == *old(self),
    {
        if self.check_if_enough_score(self.shield_time_upgrade_cost) {
            self.shield_cost_interval_ms = self.shield_cost_interval_ms.saturating_add(1_000);
            let cost = self.shield_time_upgrade_cost;
            self.increase_all_time_score_count(cost);
            self.remove_score(cost);
            true
        } else {
            false
        }
    }

    /// Raise the missile flight speed by one step, never past the cap: an
    /// attempt at the cap is rejected even with sufficient score.
    pub fn upgrade_missile_speed(&mut self) -> (r: bool)
        requires
            old(self).wf(),
        ensures
            final(self).wf(),
            r == (old(self).current_points >= old(self).missile_speed_upgrade_cost
                && old(self).missile_speed < old(self).missile_speed_cap),
            r ==> *final(self) == (PlayerStats {
                missile_speed: if old(self).missile_speed + old(self).missile_speed_step
                    > old(self).missile_speed_cap {
                    old(self).missile_speed_cap
                } else {
                    (old(self).missile_speed + old(self).missile_speed_step) as u32
                },
                current_points: (old(self).current_points
                    - old(self).missile_speed_upgrade_cost) as u32,
                all_time_score_count: old(self).all_time_score_count
                    .saturating_add(old(self).missile_speed_upgrade_cost),
                ..*old(self)
            }),
            r ==> final(self).missile_speed <= final(self).missile_speed_cap,
            !r ==> *final(self) == *old(self),
    {
        if self.check_if_enough_score(self.missile_speed_upgrade_cost)
            && self.missile_speed < self.missile_speed_cap
        {
            if self.missile_speed as u64 + self.missile_speed_step as u64
                > self.missile_speed_cap as u64 {
                self.missile_speed = self.missile_speed_cap;
            } else {
                self.missile_speed = self.missile_speed + self.missile_speed_step;
            }
            let cost = self.missile_speed_upgrade_cost;
            self.increase_all_time_score_count(cost);
            self.remove_score(cost);
            true
        } else {
            false
        }
    }

    /// True iff the missile flight speed has reached its cap.
    pub fn check_missile_speed_maxed(&self) -> (r: bool)
        ensures
            r == (self.missile_speed >= self.missile_speed_cap),
    {
        self.missile_speed >= self.missile_speed_cap
    }

    /// Buy the one-shot cluster-missile upgrade; fails if already owned.
    pub fn upgrade_cluster_missile(&mut self) -> (r: bool)
        requires
            old(self).wf(),
        ensures
            final(self).wf(),
            r == (old(self).current_points >= old(self).cluster_missile_upgrade_cost
                && !old(self).is_cluster_missile_upgrade),
            r ==> *final(self) == (PlayerStats {
                is_cluster_missile_upgrade: true,
                current_points: (old(self).current_points
                    - old(self).cluster_missile_upgrade_cost) as u32,
                all_time_score_count: old(self).all_time_score_count
                    .saturating_add(old(self).cluster_missile_upgrade_cost),
                ..*old(self)
            }),
            !r ==> *final(self) == *old(self),
    {
        if self.check_if_enough_score(self.cluster_missile_upgrade_cost)
            && !self.is_cluster_missile_upgrade
        {
            self.is_cluster_missile_upgrade = true;
            let cost = self.cluster_missile_upgrade_cost;
            self.increase_all_time_score_count(cost);
            self.remove_score(cost);
            true
        } else {
            false
        }
    }

    /// Buy the one-shot energy-vampire upgrade; fails if already owned.
    pub fn upgrade_energy_vampire(&mut self) -> (r: bool)
        requires
            old(self).wf(),
        ensures
            final(self).wf(),
            r == (old(self).current_points >= old(self).energy_vampire_upgrade_cost
                && !old(self).is_energy_vampire_upgrade),
            r ==> *final(self) == (PlayerStats {
                is_energy_vampire_upgrade: true,
                current_points: (old(self).current_points
                    - old(self).energy_vampire_upgrade_cost) as u32,
                all_time_score_count: old(self).all_time_score_count
                    .saturating_add(old(self).energy_vampire_upgrade_cost),
                ..*old(self)
            }),
            !r ==> *final(self) == *old(self),
    {
        if self.check_if_enough_score(self.energy_vampire_upgrade_cost)
            && !self.is_energy_vampire_upgrade
        {
            self.is_energy_vampire_upgrade = true;
            let cost = self.energy_vampire_upgrade_cost;
            self.increase_all_time_score_count(cost);
            self.remove_score(cost);
            true
        } else {
            false
        }
    }

    /// Buy the one-shot dying-scanners upgrade; fails if already owned.
    pub fn upgrade_dying_scanners(&mut self) -> (r: bool)
        requires
            old(self).wf(),
        ensures
            final(self).wf(),
            r == (old(self).current_points >= old(self).dying_scanners_upgrade_cost
                && !old(self).is_dying_scanners_upgrade),
            r ==> *final(self) == (PlayerStats {
                is_dying_scanners_upgrade: true,
                current_points: (old(self).current_points
                    - old(self).dying_scanners_upgrade_cost) as u32,
                all_time_score_count: old(self).all_time_score_count
                    .saturating_add(old(self).dying_scanners_upgrade_cost),
                ..*old(self)
            }),
            !r ==> *final(self) == *old(self),
    {
        if self.check_if_enough_score(self.dying_scanners_upgrade_cost)
            && !self.is_dying_scanners_upgrade
        {
            self.is_dying_scanners_upgrade = true;
            let cost = self.dying_scanners_upgrade_cost;
            self.increase_all_time_score_count(cost);
            self.remove_score(cost);
            true
        } else {
            false
        }
    }

    /// Buy the one-shot larger-missiles upgrade; fails if already owned.
    pub fn upgrade_larger_missiles(&mut self) -> (r: bool)
        requires
            old(self).wf(),
        ensures
            final(self).wf(),
            r == (old(self).current_points >= old(self).larger_missiles_upgrade_cost
                && !old(self).is_larger_missiles_upgrade),
            r ==> *final(self) == (PlayerStats {
                is_larger_missiles_upgrade: true,
                current_points: (old(self).current_points
                    - old(self).larger_missiles_upgrade_cost) as u32,
                all_time_score_count: old(self).all_time_score_count
                    .saturating_add(old(self).larger_missiles_upgrade_cost),
                ..*old(self)
            }),
            !r ==> *final(self) == *old(self),
    {
        if self.check_if_enough_score(self.larger_missiles_upgrade_cost)
            && !self.is_larger_missiles_upgrade
        {
            self.is_larger_missiles_upgrade = true;
            let cost = self.larger_missiles_upgrade_cost;
            self.increase_all_time_score_count(cost);
            self.remove_score(cost);
            true
        } else {
            false
        }
    }

    // ------------------------------------------------------------------
    // Timed ticks

    /// The stat block after the health half of a recharge tick: while health
    /// is missing, the timer accrues `dt`, and on elapsing the interval it
    /// resets and one point is healed.
    pub open spec fn health_tick_spec(s: PlayerStats, dt: u32) -> PlayerStats {
        if s.current_health < s.max_health {
            let t = s.health_timer_ms.saturating_add(dt as u64);
            if t >= s.health_recharge_interval_ms as u64 {
                PlayerStats {
                    health_timer_ms: 0,
                    current_health: (s.current_health + 1) as u32,
                    ..s
                }
            } else {
                PlayerStats { health_timer_ms: t, ..s }
            }
        } else {
            s
        }
    }

    /// The stat block after the energy half of a recharge tick: while energy
    /// is missing and regeneration is enabled (the shield disables it), the
    /// timer accrues `dt`, and on elapsing the interval it resets and one
    /// recharge amount is added, clamped at the maximum.
    pub open spec fn energy_tick_spec(s: PlayerStats, dt: u32) -> PlayerStats {
        if s.current_energy < s.max_energy && s.is_regaining_energy {
            let t = s.energy_timer_ms.saturating_add(dt as u64);
            if t >= s.energy_recharge_interval_ms as u64 {
                PlayerStats {
                    energy_timer_ms: 0,
                    current_energy: if s.current_energy + s.energy_per_recharge > s.max_energy {
                        s.max_energy
                    } else {
                        (s.current_energy + s.energy_per_recharge) as u32
                    },
                    ..s
                }
            } else {
                PlayerStats { energy_timer_ms: t, ..s }
            }
        } else {
            s
        }
    }

    /// Advance the health and energy recharge timers by `dt` milliseconds,
    /// healing or recharging by the fixed per-tick amounts when the relevant
    /// timer elapses; a no-op for a pool already at its maximum, and skipped
    /// entirely for energy while the shield holds regeneration off.
    pub fn recharge_tick(&mut self, dt: u32)
        requires
            old(self).wf(),
        ensures
            final(self).wf(),
            *final(self) == PlayerStats::energy_tick_spec(
                PlayerStats::health_tick_spec(*old(self), dt),
                dt,
            ),
    {
        if self.current_health < self.max_health {
            let t = self.health_timer_ms.saturating_add(dt as u64);
            if t >= self.health_recharge_interval_ms as u64 {
                self.health_timer_ms = 0;
                self.current_health = self.current_health + 1;
            } else {
                self.health_timer_ms = t;
            }
        }
        if self.current_energy < self.max_energy && self.is_regaining_energy {
            let t = self.energy_timer_ms.saturating_add(dt as u64);
            if t >= self.energy_recharge_interval_ms as u64 {
                self.energy_timer_ms = 0;
                self.recharge_energy();
            } else {
                self.energy_timer_ms = t;
            }
        }
    }

    /// The stat block after a time-score tick: the timer accrues `dt`, and a
    /// full accrued second is taken off it and earns one point.
    pub open spec fn time_score_spec(s: PlayerStats, dt: u32) -> PlayerStats {
        let t = s.score_timer_ms.saturating_add(dt as u64);
        if t >= 1_000 {
            PlayerStats {
                score_timer_ms: (t - 1_000) as u64,
                current_points: s.current_points.saturating_add(1),
                locked_score: s.locked_score.saturating_add(1),
                ..s
            }
        } else {
            PlayerStats { score_timer_ms: t, ..s }
        }
    }

    /// Accrue `dt` toward the passive one-point-per-second score trickle.
    /// When a full second has accrued it is taken off the timer and one
    /// point is earned.
    pub fn handle_time_score(&mut self, dt: u32)
        requires
            old(self).wf(),
        ensures
            final(self).wf(),
            *final(self) == PlayerStats::time_score_spec(*old(self), dt),
    {
        self.score_timer_ms = self.score_timer_ms.saturating_add(dt as u64);
        if self.score_timer_ms >= 1_000 {
            self.score_timer_ms = self.score_timer_ms - 1_000;
            self.add_score(1);
        }
    }

    // ------------------------------------------------------------------
    // Automatic scanning

    /// Flip the automatic-scan switch and restart its timer.
    pub fn toggle_auto_scan(&mut self)
        requires
            old(self).wf(),
        ensures
            final(self).wf(),
            *final(self) == (PlayerStats {
                is_auto_scan: !old(self).is_auto_scan,
                auto_scan_timer_ms: 0,
                ..*old(self)
            }),
    {
        self.is_auto_scan = !self.is_auto_scan;
        self.auto_scan_timer_ms = 0;
    }

    /// Set the time between automatic scans, clamped into the adjustable
    /// range.
    pub fn set_auto_scan_interval(&mut self, interval_ms: u32)
        requires
            old(self).wf(),
        ensures
            final(self).wf(),
            *final(self) == (PlayerStats {
                auto_scan_interval_ms: if interval_ms < old(self).auto_scan_interval_min_ms {
                    old(self).auto_scan_interval_min_ms
                } else if interval_ms > old(self).auto_scan_interval_max_ms {
                    old(self).auto_scan_interval_max_ms
                } else {
                    interval_ms
                },
                ..*old(self)
            }),
    {
        if interval_ms < self.auto_scan_interval_min_ms {
            self.auto_scan_interval_ms = self.auto_scan_interval_min_ms;
        } else if interval_ms > self.auto_scan_interval_max_ms {
            self.auto_scan_interval_ms = self.auto_scan_interval_max_ms;
        } else {
            self.auto_scan_interval_ms = interval_ms;
        }
    }

    /// The stat block and the owed scan after an automatic-scan tick.
    pub open spec fn auto_scan_spec(s: PlayerStats, dt: u32) -> (PlayerStats, bool) {
        if !s.is_auto_scan {
            (s, false)
        } else {
            let t = s.auto_scan_timer_ms.saturating_add(dt as u64);
            if t >= s.auto_scan_interval_ms as u64 {
                (PlayerStats { auto_scan_timer_ms: 0, ..s }, true)
            } else {
                (PlayerStats { auto_scan_timer_ms: t, ..s }, false)
            }
        }
    }

    /// While automatic scanning is on, accrue `dt` toward the next scan.
    /// Returns true iff the interval elapsed, in which case the timer resets
    /// and the caller owes a scan action this tick.
    pub fn auto_scan_tick(&mut self, dt: u32) -> (fire: bool)
        requires
            old(self).wf(),
        ensures
            final(self).wf(),
            *final(self) == PlayerStats::auto_scan_spec(*old(self), dt).0,
            fire == PlayerStats::auto_scan_spec(*old(self), dt).1,
    {
        if self.is_auto_scan {
            let t = self.auto_scan_timer_ms.saturating_add(dt as u64);
            if t >= self.auto_scan_interval_ms as u64 {
                self.auto_scan_timer_ms = 0;
                true
            } else {
                self.auto_scan_timer_ms = t;
                false
            }
        } else {
            false
        }
    }

    // ------------------------------------------------------------------
    // Tutorial panel cursor

    pub fn next_tut_panel(&mut self)
        requires
            old(self).wf(),
        ensures
            final(self).wf(),
            *final(self) == (PlayerStats {
                tutorial_panel: if old(self).tutorial_panel + 1 >= old(self).max_tut_panel {
                    old(self).max_tut_panel
                } else {
                    (old(self).tutorial_panel + 1) as u32
                },
                ..*old(self)
            }),
    {
        if self.tutorial_panel >= self.max_tut_panel {
            self.tutorial_panel = self.max_tut_panel;
        } else {
            self.tutorial_panel = self.tutorial_panel + 1;
        }
    }

    pub fn prev_tut_panel(&mut self)
        requires
            old(self).wf(),
        ensures
            final(self).wf(),
            *final(self) == (PlayerStats {
                tutorial_panel: old(self).tutorial_panel.saturating_sub(1),
                ..*old(self)
            }),
    {
        self.tutorial_panel = self.tutorial_panel.saturating_sub(1);
    }
}

} // verus!
