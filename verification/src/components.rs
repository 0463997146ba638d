//! What entities are made of.

use crate::geometry::Vector2;
use crate::registry::Handle;
use vstd::prelude::*;

verus! {

/// Where an entity is.
#[derive(Clone, Copy, Debug, PartialEq, Eq, Structural)]
pub struct Transform {
    pub position: Vector2,
}

impl Transform {
    /// The transform that moves nothing: its position is the origin.
    pub fn identity() -> (transform: Transform)
        ensures
            transform == (Transform { position: Vector2 { x: 0, y: 0 } }),
    {
        Transform { position: Vector2::default() }
    }
}

impl Default for Transform {
    fn default() -> (transform: Transform)
        ensures
            transform == (Transform { position: Vector2 { x: 0, y: 0 } }),
    {
        Transform::identity()
    }
}

/// An image shown at the place of an entity.
#[derive(Clone, Copy, Debug, PartialEq, Eq)]
pub struct Sprite {
    /// Where the entity is.
    pub transform: Handle,
    /// What is shown.
    pub image: Handle,
    /// Sprites on lower layers are drawn first.
    pub layer: usize,
}

} // verus!
