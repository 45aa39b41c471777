//! Managing textures and other shared resources.

use std::collections::HashMap;
use vstd::prelude::*;

verus! {

broadcast use vstd::std_specs::hash::group_hash_axioms;

/// Options applied to a texture when it is loaded.
/// This is a builder-type object.
#[derive(Debug, Clone, Copy, PartialEq, Eq)]
pub struct TexOptions {
    /// Filtering to reduce jagged edges.
    pub smooth: bool,
    /// Will the texture repeat when coordinates
    /// are larger than size?
    pub repeated: bool,
}

impl TexOptions {
    /// Begin building a `TexOptions`: every option starts disabled.
    pub fn build() -> (r: TexOptions)
        ensures
            !r.smooth,
            !r.repeated,
    {
        TexOptions::default()
    }

    /// Enable filtering.
    pub fn smooth(&mut self) -> (r: &mut TexOptions)
        ensures
            *r == (TexOptions { smooth: true, repeated: old(self).repeated }),
            *final(self) == *final(r),
    {
        self.smooth = true;
        self
    }

    /// Enable texture repeat.
    pub fn repeated(&mut self) -> (r: &mut TexOptions)
        ensures
            *r == (TexOptions { smooth: old(self).smooth, repeated: true }),
            *final(self) == *final(r),
    {
        self.repeated = true;
        self
    }
}

impl Default for TexOptions {
    fn default() -> (r: TexOptions)
        ensures
            !r.smooth,
            !r.repeated,
    {
        TexOptions { smooth: false, repeated: false }
    }
}

/// A key for a resource list.
/// An implementor must return a distinct id for each distinct key value.
pub trait ResourceId {
    /// The id that `resource_id` returns.
    spec fn spec_resource_id(&self) -> usize;

    fn resource_id(&self) -> (r: usize)
        ensures
            r == self.spec_resource_id(),
    ;
}

/// A generic resource manager for any type of resource.
pub struct ResourceManager<T> {
    list: HashMap<usize, T>,
}

impl<T> View for ResourceManager<T> {
    type V = Map<usize, T>;

    /// The stored resources, by id.
    closed spec fn view(&self) -> Map<usize, T> {
        self.list@
    }
}

impl<T: Clone> ResourceManager<T> {
    /// Create a `ResourceManager` with no loaded resources.
    pub fn new() -> (r: ResourceManager<T>)
        ensures
            r@ == Map::<usize, T>::empty(),
    {
        ResourceManager { list: HashMap::new() }
    }

    /// Add a resource under an id. If a resource with that id exists
    /// already, it is replaced. Returns `true` if a resource was replaced.
    pub fn add<I: ResourceId>(&mut self, idx: I, res: T) -> (replaced: bool)
        ensures
            final(self)@ == old(self)@.insert(idx.spec_resource_id(), res),
            replaced == old(self)@.contains_key(idx.spec_resource_id()),
    {
        let id = idx.resource_id();
        self.list.insert(id, res).is_some()
    }

    /// Returns a clone of the resource with the given id, or `None`
    /// if there is none.
    pub fn get<I: ResourceId>(&self, idx: I) -> (r: Option<T>)
        ensures
            match r {
                Some(v) => self@.contains_key(idx.spec_resource_id())
                    && cloned(self@[idx.spec_resource_id()], v),
                None => !self@.contains_key(idx.spec_resource_id()),
            },
    {
        let id = idx.resource_id();
        match self.list.get(&id) {
            Some(r) => Some(r.clone()),
            None => None,
        }
    }
}

} // verus!
