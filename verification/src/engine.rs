//! The state of a running game and the systems that run on it.

use crate::assets::AssetCollection;
use crate::components::{Sprite, Transform};
use crate::registry::Registry;
use crate::renderer::assets::Image;
use crate::renderer::resources::Images;
use vstd::prelude::*;

verus! {

/// What a running game consists of.
pub struct EngineState {
    /// Whether the frame loop goes on.
    pub running: bool,
    pub image_resources: Images,
    pub sprites: Registry<Sprite>,
    pub transforms: Registry<Transform>,
}

impl EngineState {
    /// A running game without images or components.
    pub fn new() -> (state: EngineState)
        ensures
            state.running,
            state.image_resources@ == Seq::<(Seq<char>, Image)>::empty(),
            state.sprites@ == Seq::<Sprite>::empty(),
            state.transforms@ == Seq::<Transform>::empty(),
    {
        EngineState {
            running: true,
            image_resources: AssetCollection::new(),
            sprites: Registry::new(),
            transforms: Registry::new(),
        }
    }
}

/// The systems that the engine knows.
#[derive(Clone, Copy, Debug, PartialEq, Eq, Structural)]
pub enum SystemKind {
    /// Queues the sprites for drawing.
    Render,
    /// Queues the outlines of the colliders for drawing.
    ColliderRender,
    /// Issues the queued draw calls and shows the frame.
    SdlPresenter,
    /// Polls the window's events.
    SdlEvent,
}

/// The systems of a game, in the order in which each frame runs them.
pub struct SystemCollection {
    pub all: Vec<SystemKind>,
}

impl SystemCollection {
    /// No systems.
    pub fn new() -> (systems: SystemCollection)
        ensures
            systems.all@ == Seq::<SystemKind>::empty(),
    {
        SystemCollection { all: Vec::new() }
    }

    /// Registers `system` to run after all that are registered.
    pub fn add(&mut self, system: SystemKind)
        ensures
            final(self).all@ == old(self).all@.push(system),
    {
        self.all.push(system);
    }

    /// Registers the systems that every game runs: first the two that queue
    /// render commands, then the one that presents them, then the one that
    /// polls events.
    pub fn add_defaults(&mut self)
        ensures
            final(self).all@ == old(self).all@ + seq![
                SystemKind::Render,
                SystemKind::ColliderRender,
                SystemKind::SdlPresenter,
                SystemKind::SdlEvent,
            ],
    {
        self.add(SystemKind::Render);
        self.add(SystemKind::ColliderRender);
        self.add(SystemKind::SdlPresenter);
        self.add(SystemKind::SdlEvent);
        assert(self.all@ =~= old(self).all@ + seq![
            SystemKind::Render,
            SystemKind::ColliderRender,
            SystemKind::SdlPresenter,
            SystemKind::SdlEvent,
        ]);
    }
}

} // verus!
