//! The render command pipeline.
//!
//! During a frame, systems queue what they want drawn, each command tagged
//! with a layer. At the end of the frame the queue is dispatched: the commands
//! are put in draw order (see [`draw_order`]), each becomes one [`DrawCall`]
//! for the rasterizer, and the queue is left empty for the next frame. The
//! rasterizer itself is not called from here: whoever owns the canvas issues
//! the calls in the order given and stops at the first that fails.

pub mod assets;
pub mod draw_order;
pub mod resources;
pub mod systems;

pub use assets::{Font, Image};
pub use resources::{DrawCall, Fonts, Images, RenderCommand, RenderCommands, RenderVariant};
pub use systems::RenderSystem;
