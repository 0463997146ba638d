//! A small 2D game-engine runtime: handle-indexed storage for components and
//! loaded assets, and the two per-frame command queues that turn them into
//! draw calls and audio requests.
//!
//! Nothing here touches a window, a canvas or a sound card. The queues hand
//! out plain values, [`renderer::DrawCall`] and [`mixer::MixerRequest`], for
//! the program around the library to carry out.

pub mod assets;
pub mod camera;
pub mod components;
pub mod engine;
pub mod geometry;
pub mod mixer;
pub mod registry;
pub mod renderer;
pub mod storage;

pub use assets::{AssetCollection, AssetLoadError, AssetLoader};
pub use camera::{Camera, CameraEntity};
pub use components::{Sprite, Transform};
pub use engine::{EngineState, SystemCollection, SystemKind};
pub use geometry::{Color, Point, Vector2};
pub use mixer::{mix, Mixer};
pub use registry::{Handle, Registry};
pub use renderer::{DrawCall, RenderCommand, RenderCommands, RenderSystem, RenderVariant};
pub use storage::SdlAssetStorage;
