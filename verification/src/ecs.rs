//! Entity-facing pieces of the engine: the per-entity data components and
//! the collision resolution step that corrects an entity's position.

pub mod collision;
pub mod components;
