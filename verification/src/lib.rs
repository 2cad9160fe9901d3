//! Movement-and-collision core of a side-scrolling platformer.
//!
//! The crate models a tile-grid world, a signed-penetration rectangle
//! geometry, and a per-frame character physics step that resolves
//! horizontal and vertical collisions against three tile classes while
//! driving gravity, variable-height jumping, and an animation-state
//! derivation.
//!
//! All world-space quantities are integers: positions and sizes in world
//! units, velocities in world units per second, and times in milliseconds.

pub mod data;
pub mod game;
pub mod gfx;
