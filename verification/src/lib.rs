//! Core engine of a turn-based space-combat game.
//!
//! The galaxy is an 8x8 grid of quadrants; the quadrant the ship currently
//! occupies is resolved into an 8x8 sector grid.  The ship must destroy every
//! Klingon raider before the mission deadline, managing energy, shields,
//! torpedoes and eight damageable devices.
//!
//! All continuous quantities of the game (energy, shields, courses, warp
//! factors, distances, random scaling factors) are represented as integers;
//! fractional values such as courses and distances are carried in
//! milli-units (one unit is 1000 milli-units).  Every stochastic decision
//! draws from the single `rand::rngs::StdRng` stream owned by the `Galaxy`,
//! so one seed determines an entire playthrough.

pub mod combat;
pub mod computer;
pub mod constants;
pub mod geometry;
pub mod enterprise;
pub mod events;
pub mod galaxy;
pub mod game_engine;
pub mod generation;
pub mod klingon;
pub mod navigation;
pub mod navigation_types;
pub mod position;
pub mod quadrant;
mod rng;
pub mod scan;
pub mod sector_map;
pub mod starship;
