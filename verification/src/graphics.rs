//! Per-frame rendering context: the camera pose and the global casting
//! parameters shared by every column of a frame.

pub mod camera;
pub mod ray_caster;
pub mod renderer;

use crate::graphics::camera::Camera;
use crate::math::Vec2;
use vstd::prelude::*;

verus! {

/// The per-frame rendering context: maximal rendering distance, camera pose,
/// and the number of columns of the 3D view.
pub struct RenderingState {
    rendering_distance: i64,
    camera: Camera,
    total_columns: u32,
}

impl RenderingState {
    /// Default state: a 10 world-unit rendering distance, 120 columns, and a
    /// camera at (3, 3) looking along +x with a 90-degree field of view.
    pub fn new() -> (s: RenderingState)
        ensures
            s.spec_rendering_distance() == 10_000,
            s.spec_total_columns() == 120,
            s.spec_camera().spec_position() == (Vec2 { x: 3000, y: 3000 }),
            s.spec_camera().spec_direction() == 0,
            s.spec_camera().spec_fov() == 1571,
    {
        RenderingState {
            rendering_distance: 10_000,
            total_columns: 120,
            camera: Camera::new(Vec2 { x: 3000, y: 3000 }, 0, 1571),
        }
    }

    pub closed spec fn spec_rendering_distance(&self) -> i64 {
        self.rendering_distance
    }

    pub closed spec fn spec_camera(&self) -> Camera {
        self.camera
    }

    pub closed spec fn spec_total_columns(&self) -> u32 {
        self.total_columns
    }

    pub fn rendering_distance(&self) -> (r: i64)
        ensures
            r == self.spec_rendering_distance(),
    {
        self.rendering_distance
    }

    pub fn camera(&self) -> (c: &Camera)
        ensures
            *c == self.spec_camera(),
    {
        &self.camera
    }

    pub fn camera_mut(&mut self) -> (c: &mut Camera)
        ensures
            *c == old(self).spec_camera(),
            final(self).spec_camera() == *final(c),
            final(self).spec_rendering_distance() == old(self).spec_rendering_distance(),
            final(self).spec_total_columns() == old(self).spec_total_columns(),
    {
        &mut self.camera
    }

    pub fn total_columns(&self) -> (r: u32)
        ensures
            r == self.spec_total_columns(),
    {
        self.total_columns
    }
}

} // verus!
