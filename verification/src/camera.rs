//! The camera of a game.

use crate::geometry::Vector2;
use vstd::prelude::*;

verus! {

/// The point of the world that the screen shows.
#[derive(Clone, Copy, Debug, PartialEq, Eq, Structural)]
pub struct Camera {
    pub position: Vector2,
}

/// An entity that is nothing but a camera.
#[derive(Clone, Copy, Debug, PartialEq, Eq, Structural)]
pub struct CameraEntity {
    camera: Camera,
}

impl View for CameraEntity {
    type V = Camera;

    /// The camera of the entity.
    closed spec fn view(&self) -> Camera {
        self.camera
    }
}

impl CameraEntity {
    /// The camera of the entity.
    pub fn camera(&self) -> (camera: Camera)
        ensures
            camera == self@,
    {
        self.camera
    }
}

/// Adds a camera at `position` to the cameras of a game, behind all others.
pub fn new(cameras: &mut Vec<CameraEntity>, position: Vector2)
    ensures
        final(cameras)@.len() == old(cameras)@.len() + 1,
        final(cameras)@.drop_last() == old(cameras)@,
        final(cameras)@.last()@ == (Camera { position }),
{
    let ghost before = cameras@;
    cameras.push(CameraEntity { camera: Camera { position } });
    assert(cameras@.drop_last() =~= before);
}

} // verus!
