//! Simulation core of a top-down arcade defense game: a player-controlled
//! planet survives escalating waves of hidden enemies using three
//! resource-gated actions (missile strike, radar scan, energy shield) while a
//! difficulty director raises the stakes.
//!
//! The crate holds the game's state and rules only. Rendering, audio, asset
//! loading, window management, raw input capture and the physics engine are
//! external collaborators: inputs arrive as plain action events, collisions
//! arrive as overlap reports from an outside oracle, and outcomes leave as
//! plain domain events.
//!
//! All quantities are fixed-point integers: times in milliseconds, positions
//! in milli-units (thousandths of a world unit), speeds in milli-units per
//! second. Every tunable of the game balance (steps of half a unit,
//! tenth-of-a-second interval cuts) is exact in these units.

pub mod difficulty;
pub mod economy;
pub mod enemy;
pub mod events;
pub mod geom;
pub mod missile;
pub mod rng;
pub mod scanner;
pub mod shield;
pub mod spawner;
pub mod world;
