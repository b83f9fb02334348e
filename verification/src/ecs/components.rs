//! Plain data components attached to entities by the embedding program's
//! entity-component system.

use crate::graphics::camera::Camera;
use crate::math::Vec2;
use crate::model::ResourceId;
use vstd::prelude::*;

verus! {

/// An entity's world position.
#[derive(Clone, Copy, Debug, PartialEq, Eq, Structural)]
pub struct PositionComponent {
    pub position: Vec2,
}

impl PositionComponent {
    pub fn new(position: Vec2) -> (c: PositionComponent)
        ensures
            c.position == position,
    {
        PositionComponent { position }
    }
}

/// An entity's heading angle, in fixed-point radians.
#[derive(Clone, Copy, Debug, PartialEq, Eq, Structural)]
pub struct DirectionComponent {
    pub direction: i64,
}

impl DirectionComponent {
    pub fn new(direction: i64) -> (c: DirectionComponent)
        ensures
            c.direction == direction,
    {
        DirectionComponent { direction }
    }
}

/// Marks the entity whose pose drives the camera and collision resolution.
#[derive(Clone, Copy, Debug, PartialEq, Eq, Structural)]
pub struct PlayerFlagComponent {}

impl PlayerFlagComponent {
    pub fn new() -> PlayerFlagComponent {
        PlayerFlagComponent {  }
    }
}

/// Points an entity at a registered `Linemap` by resource id.
#[derive(Clone, Copy, Debug, PartialEq, Eq, Structural)]
pub struct LinemapComponent {
    linemap: ResourceId,
}

impl LinemapComponent {
    pub fn new(linemap: ResourceId) -> (c: LinemapComponent)
        ensures
            c.spec_linemap() == linemap,
    {
        LinemapComponent { linemap }
    }

    pub closed spec fn spec_linemap(&self) -> ResourceId {
        self.linemap
    }

    pub fn linemap(&self) -> (id: ResourceId)
        ensures
            id == self.spec_linemap(),
    {
        self.linemap
    }
}

/// Points an entity at a registered `Tilemap` by resource id.
#[derive(Clone, Copy, Debug, PartialEq, Eq, Structural)]
pub struct TilemapComponent {
    tilemap_id: ResourceId,
}

impl TilemapComponent {
    pub fn new(tilemap: ResourceId) -> (c: TilemapComponent)
        ensures
            c.spec_tilemap() == tilemap,
    {
        TilemapComponent { tilemap_id: tilemap }
    }

    pub closed spec fn spec_tilemap(&self) -> ResourceId {
        self.tilemap_id
    }

    pub fn tilemap(&self) -> (id: &ResourceId)
        ensures
            *id == self.spec_tilemap(),
    {
        &self.tilemap_id
    }
}

/// Carries the camera pose used to render an entity's view.
#[derive(Clone, Copy, Debug, PartialEq, Eq, Structural)]
pub struct CameraComponent {
    camera: Camera,
}

impl CameraComponent {
    pub fn new(camera: Camera) -> (c: CameraComponent)
        ensures
            c.spec_camera() == camera,
    {
        CameraComponent { camera }
    }

    pub closed spec fn spec_camera(&self) -> Camera {
        self.camera
    }

    pub fn camera(&self) -> (c: &Camera)
        ensures
            *c == self.spec_camera(),
    {
        &self.camera
    }

    pub fn camera_mut(&mut self) -> (c: &mut Camera)
        ensures
            *c == old(self).spec_camera(),
            final(self).spec_camera() == *final(c),
    {
        &mut self.camera
    }
}

} // verus!
