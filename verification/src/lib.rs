//! Dungeon layout and navigation engine.
//!
//! The crate models a first-person grid dungeon: a fixed adjacency rule
//! decides which walls exist between cells ([`labyrinth`]), each present wall
//! is materialized into an oriented, positioned surface ([`surface`]), a
//! compass-direction state machine moves the viewpoint through the grid
//! ([`navigation`]), and the picture-in-picture render regions of the HUD are
//! rescaled whenever the host window resizes ([`viewport`]).
//!
//! World coordinates are integers in a fixed-point unit chosen by the caller:
//! one cell edge spans two half-steps, so every translation performed here is
//! exact. The rendering host converts these to its own floating-point space.

pub mod geometry;
pub mod labyrinth;
pub mod navigation;
pub mod surface;
pub mod viewport;
