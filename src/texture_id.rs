//! The textures of the game, as keys of the resource list.

use vstd::prelude::*;
use crate::resources::ResourceId;

verus! {

/// The textures that the game loads.
#[derive(Debug, Clone, Copy, PartialEq, Eq)]
pub enum TextureId {
    Layer0,
    Layer1,
    Layer2,
    Spaceship0,
}

impl ResourceId for TextureId {
    open spec fn spec_resource_id(&self) -> usize {
        match self {
            TextureId::Layer0 => 0,
            TextureId::Layer1 => 1,
            TextureId::Layer2 => 2,
            TextureId::Spaceship0 => 3,
        }
    }

    fn resource_id(&self) -> (r: usize) {
        match self {
            TextureId::Layer0 => 0,
            TextureId::Layer1 => 1,
            TextureId::Layer2 => 2,
            TextureId::Spaceship0 => 3,
        }
    }
}

/// Distinct textures have distinct ids, so none replaces another in a
/// resource list.
pub proof fn texture_ids_distinct(a: TextureId, b: TextureId)
    ensures
        a.spec_resource_id() == b.spec_resource_id() <==> a == b,
{
}

} // verus!
