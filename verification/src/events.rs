//! The plain events that cross the simulation's boundary. Inbound action
//! events come from the input-handling collaborator; outbound events go to
//! presentation and audio collaborators, fire-and-forget. Both live for a
//! single tick: whatever a tick produces is drained once and never persists.

use crate::geom::Vec2i;
use vstd::prelude::*;

verus! {

/// The border zone an enemy spawned from, for the warning-indicator UI.
#[derive(Clone, Copy, Debug, PartialEq, Eq, Structural)]
pub enum SpawnSide {
    Left,
    Top,
    Right,
    Bottom,
}

/// An abstract player action, already decoded from raw input.
#[derive(Clone, Copy, Debug, PartialEq, Eq, Structural)]
pub enum InputEvent {
    FireMissile(Vec2i),
    Scan,
    Shield(bool),
}

/// An outbound notification produced by the simulation during a tick.
#[derive(Clone, Copy, Debug, PartialEq, Eq, Structural)]
pub enum GameEvent {
    /// The spendable and permanent pools both grew by this much.
    ScoreChanged(u32),
    /// An enemy was destroyed by a missile at this position.
    EnemyKilled(Vec2i),
    /// An enemy reached the planet.
    PlanetDamaged,
    /// A wave enemy appeared at this border.
    EnemySpawned(SpawnSide),
    /// Health reached zero: the run is over.
    GameOver,
}

} // verus!
