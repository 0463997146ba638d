//! Sounds, tracks and the commands queued for them.

use crate::registry::{Handle, Registry};
use std::collections::VecDeque;
use vstd::prelude::*;

verus! {

/// A playback slot of the audio hardware, by the number the backend gave it.
#[derive(Clone, Copy, Debug, PartialEq, Eq, Structural)]
pub struct Channel(pub i32);

/// A sound effect that can be played.
#[derive(Clone, Copy, Debug, PartialEq, Eq)]
pub struct Sfx {
    /// Where the backend keeps the decoded sound.
    pub chunk_index: usize,
    /// The channel that the last successful play put the sound on. It is not
    /// taken back when the sound ends, so it may name a channel that plays
    /// something else by now.
    pub channel: Option<Channel>,
}

/// A music track that can be played.
#[derive(Clone, Copy, Debug, PartialEq, Eq)]
pub struct Bgm {
    /// Where the backend keeps the track.
    pub music_index: usize,
}

/// The sound effects of a game.
pub type Sfxs = Registry<Sfx>;

/// The music tracks of a game.
pub type Bgms = Registry<Bgm>;

/// What to do with a sound effect.
#[derive(Clone, Copy, Debug, PartialEq, Eq)]
pub enum SfxVariant {
    /// Start the sound on a free channel.
    Play,
    /// Set the volume of the channel that the sound is on.
    Volume(i32),
    /// Set the left and right volume of the channel that the sound is on.
    Pan(u8, u8),
}

/// A queued directive for one sound effect.
#[derive(Clone, Copy, Debug, PartialEq, Eq)]
pub struct SfxCommand {
    pub sfx_handle: Handle,
    pub variant: SfxVariant,
}

/// A queued directive for the music deck.
#[derive(Clone, Copy, Debug, PartialEq, Eq)]
pub enum MusicCommand {
    /// Start a track, fading in over the given milliseconds.
    Play(Handle, i32),
    /// Stop whatever plays, fading out over the given milliseconds.
    Stop(i32),
    /// Set the volume of the deck.
    Volume(i32),
}

/// The sound-effect commands of the current frame, oldest first.
pub struct SfxCommands {
    pub commands: VecDeque<SfxCommand>,
}

/// The music commands of the current frame, oldest first.
pub struct MusicCommands {
    pub commands: VecDeque<MusicCommand>,
}

impl Default for SfxCommands {
    fn default() -> (queue: SfxCommands)
        ensures
            queue.commands@ == Seq::<SfxCommand>::empty(),
    {
        SfxCommands::new()
    }
}

impl Default for MusicCommands {
    fn default() -> (queue: MusicCommands)
        ensures
            queue.commands@ == Seq::<MusicCommand>::empty(),
    {
        MusicCommands::new()
    }
}

impl SfxCommands {
    /// An empty queue.
    pub fn new() -> (queue: Self)
        ensures
            queue.commands@ == Seq::<SfxCommand>::empty(),
    {
        SfxCommands { commands: VecDeque::new() }
    }

    /// Queues the start of the sound at `sfx_handle`.
    pub fn add_play(&mut self, sfx_handle: Handle)
        ensures
            final(self).commands@ == old(self).commands@.push(
                SfxCommand { sfx_handle, variant: SfxVariant::Play },
            ),
    {
        self.commands.push_back(SfxCommand { sfx_handle, variant: SfxVariant::Play });
    }

    /// Queues a change of volume for the sound at `sfx_handle`.
    pub fn add_volume(&mut self, sfx_handle: Handle, volume: i32)
        ensures
            final(self).commands@ == old(self).commands@.push(
                SfxCommand { sfx_handle, variant: SfxVariant::Volume(volume) },
            ),
    {
        self.commands.push_back(SfxCommand { sfx_handle, variant: SfxVariant::Volume(volume) });
    }

    /// Queues a change of panning for the sound at `sfx_handle`.
    pub fn add_pan(&mut self, sfx_handle: Handle, left: u8, right: u8)
        ensures
            final(self).commands@ == old(self).commands@.push(
                SfxCommand { sfx_handle, variant: SfxVariant::Pan(left, right) },
            ),
    {
        self.commands.push_back(SfxCommand { sfx_handle, variant: SfxVariant::Pan(left, right) });
    }
}

impl MusicCommands {
    /// An empty queue.
    pub fn new() -> (queue: Self)
        ensures
            queue.commands@ == Seq::<MusicCommand>::empty(),
    {
        MusicCommands { commands: VecDeque::new() }
    }

    /// Queues the start of the track at `bgm_handle`.
    pub fn add_play(&mut self, bgm_handle: Handle, fade_in: i32)
        ensures
            final(self).commands@ == old(self).commands@.push(
                MusicCommand::Play(bgm_handle, fade_in),
            ),
    {
        self.commands.push_back(MusicCommand::Play(bgm_handle, fade_in));
    }

    /// Queues the end of the music.
    pub fn add_stop(&mut self, fade_out: i32)
        ensures
            final(self).commands@ == old(self).commands@.push(MusicCommand::Stop(fade_out)),
    {
        self.commands.push_back(MusicCommand::Stop(fade_out));
    }

    /// Queues a change of the music's volume.
    pub fn add_volume(&mut self, volume: i32)
        ensures
            final(self).commands@ == old(self).commands@.push(MusicCommand::Volume(volume)),
    {
        self.commands.push_back(MusicCommand::Volume(volume));
    }
}

} // verus!
