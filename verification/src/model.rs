//! World model: shared assets (tiles, tile grids, line sets) and the keyed
//! repository that owns them.

pub mod linemap;
pub mod object_color;
pub mod repository;
pub mod tile;
pub mod tilemap;

use vstd::prelude::*;

verus! {

/// Stable integer handle into a `Repository`; `0` denotes "no resource".
pub type ResourceId = u32;

/// Whether `resource_id` names an actual resource rather than "none".
pub fn is_exists_resource(resource_id: ResourceId) -> (r: bool)
    ensures
        r == (resource_id > 0),
{
    resource_id > 0
}

} // verus!
