//! A pseudo-3D raycasting geometry engine over fixed-point world coordinates.
//!
//! The world is described either as a uniform tile grid (`Tilemap`) or as a
//! set of 2D line segments (`Linemap`). Rays are cast from a camera pose, one
//! per screen column; the resulting hits drive a column-projected 3D view, a
//! top-down debug view, and a penetration-resolving collision step.
//!
//! All world coordinates and distances are scaled integers (see `math::SCALE`),
//! so every algorithm in the crate is exact and fully specified. Windowing,
//! input and drawing are left to the embedding program, which converts its own
//! floating-point state into fixed-point values at the boundary.

pub mod ecs;
pub mod game_state;
pub mod graphics;
pub mod math;
pub mod model;
