//! The audio command pipeline.
//!
//! Game logic queues sound-effect and music commands during a frame; once per
//! frame the queues are drained against the audio backend. The backend is not
//! called from here. Draining is a conversation: [`mix`] is handed what the
//! backend answered to the previous request and returns the next request, or
//! the end of the drain. Whoever owns the audio device carries the requests
//! out and reports back, one [`MixerEvent`] per [`MixerRequest`].
//!
//! Sound effects are drained first, oldest command first, then music.

pub mod laws;
pub mod mixer;
pub mod model;
pub mod protocol;
pub mod resources;

pub use mixer::{mix, Mixer};
pub use model::MixerModel;
pub use protocol::{MixError, MixerEvent, MixerRequest, MixerStep, Pending};
pub use resources::{
    Bgm, Bgms, Channel, MusicCommand, MusicCommands, Sfx, SfxCommand, SfxCommands, SfxVariant,
    Sfxs,
};
