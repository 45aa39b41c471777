//! The integer core of a small 2D space-game engine: resource
//! bookkeeping, texture options, keyboard state and steering, the
//! fixed-timestep tick schedule, and the pixels of generated stars.

pub mod input;
pub mod resources;
pub mod starfield;
pub mod texture_id;
pub mod tick;
