//! Tile definitions: appearance plus collision behaviour, shared by every
//! grid cell that uses them.

use crate::model::object_color::ObjectColor;
use crate::model::repository::Resource;
use crate::model::ResourceId;
use vstd::prelude::*;

verus! {

/// A tile definition, immutable once registered.
#[derive(Clone, Copy, Debug, PartialEq, Eq, Structural)]
pub struct Tile {
    id: ResourceId,
    color: ObjectColor,
    is_collision_enabled: bool,
}

impl Tile {
    pub fn new(id: ResourceId, color: ObjectColor, is_collision_enabled: bool) -> (t: Tile)
        ensures
            t.spec_id() == id,
            t.spec_color() == color,
            t.spec_collision_enabled() == is_collision_enabled,
    {
        Self { id, color, is_collision_enabled }
    }

    pub closed spec fn spec_color(&self) -> ObjectColor {
        self.color
    }

    pub closed spec fn spec_collision_enabled(&self) -> bool {
        self.is_collision_enabled
    }

    pub fn color(&self) -> (c: &ObjectColor)
        ensures
            *c == self.spec_color(),
    {
        &self.color
    }

    pub fn is_collision_enabled(&self) -> (b: bool)
        ensures
            b == self.spec_collision_enabled(),
    {
        self.is_collision_enabled
    }
}

impl Resource for Tile {
    closed spec fn spec_id(&self) -> u32 {
        self.id
    }

    fn id(&self) -> (r: u32) {
        self.id
    }
}

} // verus!
