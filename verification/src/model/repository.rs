//! A keyed store for shared world assets.

use std::collections::HashMap;
use vstd::prelude::*;

verus! {

broadcast use vstd::std_specs::hash::group_hash_axioms;

/// An asset that can live in a `Repository`, addressed by its id.
pub trait Resource {
    /// The id under which the resource registers itself.
    spec fn spec_id(&self) -> u32;

    fn id(&self) -> (r: u32)
        ensures
            r == self.spec_id(),
    ;
}

/// A keyed store for shared world assets. Registration under an id that is
/// already taken silently replaces the prior entry: last write wins.
pub struct Repository<T: Resource> {
    data: HashMap<u32, T>,
}

impl<T: Resource> View for Repository<T> {
    type V = Map<u32, T>;

    closed spec fn view(&self) -> Map<u32, T> {
        self.data@
    }
}

impl<T: Resource> Repository<T> {
    pub fn new() -> (s: Self)
        ensures
            s@ == Map::<u32, T>::empty(),
    {
        Self { data: HashMap::with_capacity(32) }
    }

    /// Looks a resource up by id; absent ids yield `None`.
    pub fn get_resource(&self, id: &u32) -> (r: Option<&T>)
        ensures
            match r {
                Some(t) => self@.contains_key(*id) && *t == self@[*id],
                None => !self@.contains_key(*id),
            },
    {
        self.data.get(id)
    }

    /// Stores `resource` under its own id, replacing any prior entry.
    pub fn register_resource(&mut self, resource: T)
        ensures
            final(self)@ == old(self)@.insert(resource.spec_id(), resource),
    {
        self.data.insert(resource.id(), resource);
    }
}

} // verus!
