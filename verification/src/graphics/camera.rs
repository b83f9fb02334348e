//! The camera pose: position, heading angle and field of view.

use crate::math::Vec2;
use vstd::prelude::*;

verus! {

/// A camera pose. The heading and field of view are angles in fixed-point
/// radians; both fields are overwritten every frame by an external
/// synchronization step.
#[derive(Clone, Copy, Debug, PartialEq, Eq, Structural)]
pub struct Camera {
    position: Vec2,
    direction: i64,
    fov: i64,
}

impl Camera {
    pub fn new(position: Vec2, direction: i64, fov: i64) -> (c: Camera)
        ensures
            c.spec_position() == position,
            c.spec_direction() == direction,
            c.spec_fov() == fov,
    {
        Camera { position, direction, fov }
    }

    pub closed spec fn spec_position(&self) -> Vec2 {
        self.position
    }

    pub closed spec fn spec_direction(&self) -> i64 {
        self.direction
    }

    pub closed spec fn spec_fov(&self) -> i64 {
        self.fov
    }

    pub fn position(&self) -> (p: Vec2)
        ensures
            p == self.spec_position(),
    {
        self.position
    }

    pub fn direction(&self) -> (d: i64)
        ensures
            d == self.spec_direction(),
    {
        self.direction
    }

    pub fn fov(&self) -> (f: i64)
        ensures
            f == self.spec_fov(),
    {
        self.fov
    }

    pub fn set_position(&mut self, position: Vec2)
        ensures
            final(self).spec_position() == position,
            final(self).spec_direction() == old(self).spec_direction(),
            final(self).spec_fov() == old(self).spec_fov(),
    {
        self.position = position;
    }

    pub fn set_direction(&mut self, direction: i64)
        ensures
            final(self).spec_direction() == direction,
            final(self).spec_position() == old(self).spec_position(),
            final(self).spec_fov() == old(self).spec_fov(),
    {
        self.direction = direction;
    }

    pub fn set_fov(&mut self, fov: i64)
        ensures
            final(self).spec_fov() == fov,
            final(self).spec_position() == old(self).spec_position(),
            final(self).spec_direction() == old(self).spec_direction(),
    {
        self.fov = fov;
    }
}

} // verus!
