//! The enemy spawner's play-field geometry. Each spawn picks one of the four
//! border zones at random, places the enemy just outside that border with
//! the perpendicular coordinate uniformly random across the field, and
//! reports which side it came from.

use crate::events::SpawnSide;
use crate::geom::{Vec2i, COORD_BOUND};
use crate::rng::{random_i64_in, random_u32_below};
use vstd::prelude::*;

verus! {

/// How far outside the border an enemy appears, in milli-units (50 units).
pub const SPAWN_MARGIN: i64 = 50_000;

/// Gap between the visible field and the border zones (10 units).
pub const FIELD_SPACE: i64 = 10_000;

/// The border zones of the play field, in milli-units: enemies appear just
/// outside `left`/`top`/`right`/`bottom`.
#[derive(Clone, Copy, Debug, PartialEq, Eq, Structural)]
pub struct SpawnField {
    pub left: i64,
    pub top: i64,
    pub right: i64,
    pub bottom: i64,
    pub space: i64,
}

impl SpawnField {
    /// Well-formedness: the borders frame a non-empty field around the
    /// planet at the origin and leave room for the spawn margin inside the
    /// coordinate bounds.
    pub open spec fn wf(self) -> bool {
        &&& -COORD_BOUND + SPAWN_MARGIN <= self.left < 0 < self.right
            <= COORD_BOUND - SPAWN_MARGIN
        &&& -COORD_BOUND + SPAWN_MARGIN <= self.bottom < 0 < self.top
            <= COORD_BOUND - SPAWN_MARGIN
    }

    /// Build the field from the square play area's half-extent (the window
    /// gives a square of its height): each border sits the gap outside it.
    pub fn new(half_extent: i64) -> (f: SpawnField)
        requires
            0 <= half_extent <= COORD_BOUND - SPAWN_MARGIN - FIELD_SPACE,
        ensures
            f.wf(),
            f == (SpawnField {
                left: -(half_extent + FIELD_SPACE) as i64,
                top: (half_extent + FIELD_SPACE) as i64,
                right: (half_extent + FIELD_SPACE) as i64,
                bottom: -(half_extent + FIELD_SPACE) as i64,
                space: FIELD_SPACE,
            }),
    {
        SpawnField {
            left: -(half_extent + FIELD_SPACE),
            top: half_extent + FIELD_SPACE,
            right: half_extent + FIELD_SPACE,
            bottom: -(half_extent + FIELD_SPACE),
            space: FIELD_SPACE,
        }
    }

    /// Where an enemy appears for a given side and perpendicular coordinate:
    /// the margin outside that border, with `perp` across the field.
    pub open spec fn spawn_point_spec(self, side: SpawnSide, perp: i64) -> Vec2i {
        match side {
            SpawnSide::Left => Vec2i { x: (self.left - SPAWN_MARGIN) as i64, y: perp },
            SpawnSide::Top => Vec2i { x: perp, y: (self.top + SPAWN_MARGIN) as i64 },
            SpawnSide::Right => Vec2i { x: (self.right + SPAWN_MARGIN) as i64, y: perp },
            SpawnSide::Bottom => Vec2i { x: perp, y: (self.bottom - SPAWN_MARGIN) as i64 },
        }
    }

    /// True iff `perp` lies in the range the given side draws from: vertical
    /// across the field for the side borders, horizontal for top and bottom.
    pub open spec fn perp_in_range(self, side: SpawnSide, perp: i64) -> bool {
        match side {
            SpawnSide::Left | SpawnSide::Right => self.bottom <= perp < self.top,
            SpawnSide::Top | SpawnSide::Bottom => self.left <= perp < self.right,
        }
    }

    /// The deterministic part of a spawn: place the enemy for a side and a
    /// perpendicular draw.
    pub fn spawn_point_for(&self, side: SpawnSide, perp: i64) -> (p: Vec2i)
        requires
            self.wf(),
            self.perp_in_range(side, perp),
        ensures
            p == self.spawn_point_spec(side, perp),
            p.in_bounds(),
            p != Vec2i::origin_spec(),
    {
        match side {
            SpawnSide::Left => Vec2i { x: self.left - SPAWN_MARGIN, y: perp },
            SpawnSide::Top => Vec2i { x: perp, y: self.top + SPAWN_MARGIN },
            SpawnSide::Right => Vec2i { x: self.right + SPAWN_MARGIN, y: perp },
            SpawnSide::Bottom => Vec2i { x: perp, y: self.bottom - SPAWN_MARGIN },
        }
    }

    /// Pick one of the four border zones uniformly at random and a random
    /// position along it. Every outcome is a well-placed point of one of the
    /// four sides; which side and where along it are the generator's choice.
    pub fn new_spawn_point(&self) -> (r: (Vec2i, SpawnSide))
        requires
            self.wf(),
        ensures
            r.0.in_bounds(),
            r.0 != Vec2i::origin_spec(),
            match r.1 {
                SpawnSide::Left => r.0.x == self.left - SPAWN_MARGIN
                    && self.bottom <= r.0.y < self.top,
                SpawnSide::Top => r.0.y == self.top + SPAWN_MARGIN
                    && self.left <= r.0.x < self.right,
                SpawnSide::Right => r.0.x == self.right + SPAWN_MARGIN
                    && self.bottom <= r.0.y < self.top,
                SpawnSide::Bottom => r.0.y == self.bottom - SPAWN_MARGIN
                    && self.left <= r.0.x < self.right,
            },
    {
        let k = random_u32_below(4);
        let side = if k == 0 {
            SpawnSide::Left
        } else if k == 1 {
            SpawnSide::Top
        } else if k == 2 {
            SpawnSide::Right
        } else {
            SpawnSide::Bottom
        };
        let perp = match side {
            SpawnSide::Left | SpawnSide::Right => random_i64_in(self.bottom, self.top),
            SpawnSide::Top | SpawnSide::Bottom => random_i64_in(self.left, self.right),
        };
        let p = self.spawn_point_for(side, perp);
        (p, side)
    }
}

} // verus!
