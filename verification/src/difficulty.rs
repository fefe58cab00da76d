//! The difficulty director. On each of its own fixed ticks (whose interval is
//! the current wave interval, re-armed after every firing) it alternates
//! between a growth step and a deliberate no-op step, so the growth rate is
//! effectively halved. A growth step raises enemy speed, grows the wave and
//! tightens the wave interval toward its floor, doubling the wave whenever
//! the permanent score has climbed another milestone.

use vstd::prelude::*;

verus! {

/// The wave interval never tightens below this.
pub const WAVE_INTERVAL_FLOOR_MS: u32 = 3_000;

/// Permanent score gained since the last doubling that triggers the next one.
pub const WAVE_MILESTONE_SCORE: u32 = 500;

/// Speed gained on every growth step, in milli-units per second.
pub const SPEED_GROWTH: u32 = 500;

/// Enemy speed never grows past this (two thousand world units per second:
/// far beyond anything survivable), so flight arithmetic stays exact.
pub const SPEED_CEILING: u32 = 2_000_000_000;

/// Wave-interval tightening on a milestone step and on an ordinary step.
pub const MILESTONE_INTERVAL_CUT_MS: u32 = 2_000;

pub const ORDINARY_INTERVAL_CUT_MS: u32 = 100;

/// The difficulty director's state. Speeds are milli-units per second and
/// times are milliseconds. `upgrade_wave` toggles every tick: growth happens
/// only when it is set, which halves the effective growth rate.
pub struct EnemyStats {
    pub speed: u32,

    pub time_between_waves_ms: u32,
    pub amount_to_spawn_a_wave: u32,
    pub max_amount_to_spawn_a_wave: u32,
    pub upgrade_wave: bool,
    pub difficulty_level: u32,
    /// The permanent score recorded at the last wave-size doubling.
    pub last_player_score_upgrade: u32,

    pub amount_to_spawn_in_microwave: u32,
    pub time_between_microwaves_ms: u32,
    pub time_till_next_microwave_ms: u64,

    pub current_enemy_amount: u32,

    pub all_time_enemy_count: u32,
}

/// Tighten a wave interval by `cut`, clamped at the floor.
pub open spec fn shrink_interval(interval_ms: u32, cut_ms: u32) -> u32 {
    if interval_ms - cut_ms <= WAVE_INTERVAL_FLOOR_MS {
        WAVE_INTERVAL_FLOOR_MS
    } else {
        (interval_ms - cut_ms) as u32
    }
}

/// Double a wave size, saturating at the type's maximum.
pub open spec fn double_wave(wave: u32) -> u32 {
    if wave * 2 > u32::MAX {
        u32::MAX
    } else {
        (wave * 2) as u32
    }
}

impl EnemyStats {
    pub open spec fn initial() -> EnemyStats {
        EnemyStats {
            speed: 30_000,

            time_between_waves_ms: 15_000,
            amount_to_spawn_a_wave: 1,
            max_amount_to_spawn_a_wave: 150,
            upgrade_wave: false,
            difficulty_level: 1,
            last_player_score_upgrade: 0,

            amount_to_spawn_in_microwave: 1,
            time_between_microwaves_ms: 15_000,
            time_till_next_microwave_ms: 0,

            current_enemy_amount: 0,

            all_time_enemy_count: 0,
        }
    }

    /// Well-formedness: the wave interval never sits below its floor, a
    /// wave always spawns at least one enemy, and the speed sits between one
    /// and its ceiling.
    pub open spec fn wf(self) -> bool {
        &&& self.time_between_waves_ms >= WAVE_INTERVAL_FLOOR_MS
        &&& self.amount_to_spawn_a_wave >= 1
        &&& 1 <= self.speed <= SPEED_CEILING
    }

    pub fn new() -> (s: EnemyStats)
        ensures
            s == EnemyStats::initial(),
            s.wf(),
    {
        EnemyStats {
            speed: 30_000,

            time_between_waves_ms: 15_000,
            amount_to_spawn_a_wave: 1,
            max_amount_to_spawn_a_wave: 150,
            upgrade_wave: false,
            difficulty_level: 1,
            last_player_score_upgrade: 0,

            amount_to_spawn_in_microwave: 1,
            time_between_microwaves_ms: 15_000,
            time_till_next_microwave_ms: 0,

            current_enemy_amount: 0,

            all_time_enemy_count: 0,
        }
    }

    /// True iff the permanent score has climbed a full milestone since the
    /// last wave-size doubling.
    pub open spec fn milestone_hit(self, locked_score: u32) -> bool {
        locked_score >= self.last_player_score_upgrade
            && locked_score - self.last_player_score_upgrade >= WAVE_MILESTONE_SCORE
    }

    /// The growth step: on a milestone the wave doubles, the interval drops
    /// by two seconds and the milestone is re-recorded; otherwise the wave
    /// grows by one and the interval drops by a tenth of a second. Speed
    /// rises either way, the interval floors, the level counter advances and
    /// the toggle flips to the no-op state.
    pub open spec fn grow_spec(self, locked_score: u32) -> EnemyStats {
        let hit = self.milestone_hit(locked_score);
        EnemyStats {
            amount_to_spawn_a_wave: if hit {
                double_wave(self.amount_to_spawn_a_wave)
            } else {
                self.amount_to_spawn_a_wave.saturating_add(1)
            },
            time_between_waves_ms: if hit {
                shrink_interval(self.time_between_waves_ms, MILESTONE_INTERVAL_CUT_MS)
            } else {
                shrink_interval(self.time_between_waves_ms, ORDINARY_INTERVAL_CUT_MS)
            },
            last_player_score_upgrade: if hit {
                locked_score
            } else {
                self.last_player_score_upgrade
            },
            speed: if self.speed + SPEED_GROWTH > SPEED_CEILING {
                SPEED_CEILING
            } else {
                (self.speed + SPEED_GROWTH) as u32
            },
            upgrade_wave: false,
            difficulty_level: self.difficulty_level.saturating_add(1),
            ..self
        }
    }

    /// The derived micro-wave values, recomputed after every tick: the
    /// micro-wave interval divides the wave interval across the wave, and
    /// the micro-wave spawn count is the wave divided by that interval in
    /// seconds, rounded up (saturating where the division degenerates).
    pub open spec fn derive_spec(self) -> EnemyStats {
        let micro_ms = self.time_between_waves_ms as int / self.amount_to_spawn_a_wave as int;
        let count = if micro_ms == 0 {
            u32::MAX as int
        } else {
            (self.amount_to_spawn_a_wave as int * 1_000 + micro_ms - 1) / micro_ms
        };
        EnemyStats {
            time_between_microwaves_ms: micro_ms as u32,
            amount_to_spawn_in_microwave: if count > u32::MAX {
                u32::MAX
            } else {
                count as u32
            },
            ..self
        }
    }

    /// One full director tick: a growth step when the toggle is armed, else
    /// only arming the toggle; the derived micro-wave values are recomputed
    /// either way.
    pub open spec fn tick_spec(self, locked_score: u32) -> EnemyStats {
        if self.upgrade_wave {
            self.grow_spec(locked_score).derive_spec()
        } else {
            (EnemyStats { upgrade_wave: true, ..self }).derive_spec()
        }
    }

    /// Advance the director by one of its fixed ticks, reading the player's
    /// permanent score for milestone detection. The wave interval never
    /// grows and never drops below its floor, and the enemy speed never
    /// falls.
    pub fn tick(&mut self, locked_score: u32)
        requires
            old(self).wf(),
        ensures
            final(self).wf(),
            *final(self) == old(self).tick_spec(locked_score),
            final(self).time_between_waves_ms <= old(self).time_between_waves_ms,
            final(self).time_between_waves_ms >= WAVE_INTERVAL_FLOOR_MS,
            final(self).speed >= old(self).speed,
    {
        if self.upgrade_wave {
            if locked_score >= self.last_player_score_upgrade
                && locked_score - self.last_player_score_upgrade >= WAVE_MILESTONE_SCORE
            {
                self.amount_to_spawn_a_wave = if self.amount_to_spawn_a_wave > u32::MAX / 2 {
                    u32::MAX
                } else {
                    self.amount_to_spawn_a_wave * 2
                };
                self.time_between_waves_ms = if self.time_between_waves_ms
                    <= WAVE_INTERVAL_FLOOR_MS + MILESTONE_INTERVAL_CUT_MS {
                    WAVE_INTERVAL_FLOOR_MS
                } else {
                    self.time_between_waves_ms - MILESTONE_INTERVAL_CUT_MS
                };
                self.last_player_score_upgrade = locked_score;
            } else {
                self.amount_to_spawn_a_wave = self.amount_to_spawn_a_wave.saturating_add(1);
                self.time_between_waves_ms = if self.time_between_waves_ms
                    <= WAVE_INTERVAL_FLOOR_MS + ORDINARY_INTERVAL_CUT_MS {
                    WAVE_INTERVAL_FLOOR_MS
                } else {
                    self.time_between_waves_ms - ORDINARY_INTERVAL_CUT_MS
                };
            }
            self.speed = if self.speed > SPEED_CEILING - SPEED_GROWTH {
                SPEED_CEILING
            } else {
                self.speed + SPEED_GROWTH
            };
            self.upgrade_wave = false;
            self.difficulty_level = self.difficulty_level.saturating_add(1);
        } else {
            self.upgrade_wave = true;
        }

        let micro_ms: u64 = self.time_between_waves_ms as u64 / self.amount_to_spawn_a_wave as u64;
        self.time_between_microwaves_ms = micro_ms as u32;
        if micro_ms == 0 {
            self.amount_to_spawn_in_microwave = u32::MAX;
        } else {
            let count: u64 = (self.amount_to_spawn_a_wave as u64 * 1_000 + micro_ms - 1) / micro_ms;
            self.amount_to_spawn_in_microwave = if count > u32::MAX as u64 {
                u32::MAX
            } else {
                count as u32
            };
        }
    }
}

/// The director's state after a whole run of ticks, fed the permanent score
/// observed at each one.
pub open spec fn tick_iter(s: EnemyStats, scores: Seq<u32>) -> EnemyStats
    decreases scores.len(),
{
    if scores.len() == 0 {
        s
    } else {
        tick_iter(s.tick_spec(scores[0]), scores.skip(1))
    }
}

/// Across any run of director ticks, whatever scores they observe, the wave
/// interval is monotonically non-increasing and never drops below its floor,
/// and the enemy speed is monotonically non-decreasing.
pub proof fn lemma_difficulty_monotone(s: EnemyStats, scores: Seq<u32>)
    requires
        s.wf(),
    ensures
        tick_iter(s, scores).wf(),
        tick_iter(s, scores).time_between_waves_ms <= s.time_between_waves_ms,
        tick_iter(s, scores).time_between_waves_ms >= WAVE_INTERVAL_FLOOR_MS,
        tick_iter(s, scores).speed >= s.speed,
    decreases scores.len(),
{
    if scores.len() != 0 {
        lemma_difficulty_monotone(s.tick_spec(scores[0]), scores.skip(1));
    }
}

} // verus!
