//! What the mixer and the owner of the audio device say to each other.

use crate::mixer::resources::{Channel, SfxCommand};
use crate::registry::Handle;
use vstd::prelude::*;

verus! {

/// One thing asked of the audio backend.
#[derive(Clone, Copy, Debug, PartialEq, Eq)]
pub enum MixerRequest {
    /// Take a free channel and start the sound at `chunk_index` on it.
    PlayChunk { chunk_index: usize },
    /// Remove every effect registered on the channel.
    ClearEffects { channel: Channel },
    /// Set the channel to the loudest volume the backend has.
    MaxVolume { channel: Channel },
    /// Set the volume of the channel.
    SetVolume { channel: Channel, volume: i32 },
    /// Set the left and right volume of the channel.
    SetPanning { channel: Channel, left: u8, right: u8 },
    /// Start the track at `music_index`, fading in over `fade_in` milliseconds.
    FadeInMusic { music_index: usize, fade_in: i32 },
    /// Fade the music out over `fade_out` milliseconds.
    FadeOutMusic { fade_out: i32 },
    /// Set the volume of the music deck.
    SetMusicVolume { volume: i32 },
}

/// What the caller tells the mixer when it calls [`mix`](crate::mixer::mix).
#[derive(Debug, PartialEq, Eq)]
pub enum MixerEvent {
    /// Nothing has been asked yet: the drain starts.
    Start,
    /// The backend started playback, on this channel.
    Playing(Channel),
    /// The backend carried out the last request.
    Done,
    /// The backend did not carry out the last request, and said why.
    Failed(String),
}

/// Why a drain was given up.
#[derive(Clone, Debug, PartialEq, Eq)]
pub struct MixError {
    /// The command during which the backend failed.
    pub command: SfxCommand,
    /// What the backend said.
    pub message: String,
}

/// What [`mix`](crate::mixer::mix) wants next.
#[derive(Debug, PartialEq, Eq)]
pub enum MixerStep {
    /// Carry this request out and call [`mix`](crate::mixer::mix) again with
    /// the outcome.
    Ask(MixerRequest),
    /// The drain is over. Both queues are empty, also after an error.
    Finished(Result<(), MixError>),
}

/// The request whose outcome the mixer waits for and acts on.
#[derive(Clone, Copy, Debug, PartialEq, Eq)]
pub enum Pending {
    /// None. The outcome of the last request, if there was one, changes nothing.
    Nothing,
    /// A channel for this sound.
    Channel { sfx_handle: Handle },
    /// The clearing of the effects on the channel that this sound got.
    Effects { sfx_handle: Handle, channel: Channel },
    /// The panning that this command asked for.
    Panning { command: SfxCommand },
}

} // verus!
