//! What a turn of the drain does, said over plain sequences.

use crate::mixer::protocol::{MixError, MixerEvent, MixerRequest, MixerStep, Pending};
use crate::mixer::resources::{
    Bgm, Bgms, Channel, MusicCommand, MusicCommands, Sfx, SfxCommand, SfxCommands, SfxVariant,
    Sfxs,
};
use crate::registry::Handle;
use vstd::prelude::*;

verus! {

/// A mixer as the drain sees it.
#[verifier::ext_equal]
pub struct MixerModel {
    pub sfxs: Seq<Sfx>,
    pub bgms: Seq<Bgm>,
    pub sfx_commands: Seq<SfxCommand>,
    pub music_commands: Seq<MusicCommand>,
    pub pending: Pending,
}

impl MixerModel {
    /// A mixer without sounds, tracks or commands, awaiting nothing.
    pub open spec fn silent() -> MixerModel {
        MixerModel {
            sfxs: Seq::empty(),
            bgms: Seq::empty(),
            sfx_commands: Seq::empty(),
            music_commands: Seq::empty(),
            pending: Pending::Nothing,
        }
    }

    /// Whether the track that `command` starts, if it starts one, is stored.
    pub open spec fn knows_track(self, command: MusicCommand) -> bool {
        command matches MusicCommand::Play(bgm_handle, _) ==> bgm_handle@ < self.bgms.len()
    }

    /// Every handle that the drain will resolve names a stored sound or track.
    pub open spec fn consistent(self) -> bool {
        &&& forall|i: int|
            0 <= i < self.sfx_commands.len()
                ==> (#[trigger] self.sfx_commands[i]).sfx_handle@ < self.sfxs.len()
        &&& forall|i: int|
            0 <= i < self.music_commands.len()
                ==> self.knows_track(#[trigger] self.music_commands[i])
        &&& match self.pending {
            Pending::Channel { sfx_handle } => sfx_handle@ < self.sfxs.len(),
            Pending::Effects { sfx_handle, .. } => sfx_handle@ < self.sfxs.len(),
            _ => true,
        }
    }

    /// The sound that `handle` names.
    pub open spec fn sfx(self, handle: Handle) -> Sfx {
        self.sfxs[handle@ as int]
    }

    /// The same mixer once `channel` is on record for the sound at `handle`.
    pub open spec fn playing_on(self, handle: Handle, channel: Channel) -> MixerModel {
        MixerModel {
            sfxs: self.sfxs.update(
                handle@ as int,
                Sfx { channel: Some(channel), ..self.sfx(handle) },
            ),
            ..self
        }
    }

    /// The sound that a turn puts on record as playing, and its channel: the
    /// sound whose play got the channel, once the effects of that channel
    /// have been cleared.
    pub open spec fn puts_on_record(self, event: MixerEvent) -> Option<(Handle, Channel)> {
        match (self.pending, event) {
            (Pending::Effects { .. }, MixerEvent::Failed(_)) => None,
            (Pending::Effects { sfx_handle, channel }, _) => Some((sfx_handle, channel)),
            _ => None,
        }
    }

    /// The same mixer with both queues empty and nothing awaited.
    pub open spec fn emptied(self) -> MixerModel {
        MixerModel {
            sfx_commands: Seq::empty(),
            music_commands: Seq::empty(),
            pending: Pending::Nothing,
            ..self
        }
    }

    /// The drain given up because the backend failed during `command`.
    pub open spec fn aborted(self, command: SfxCommand, message: String) -> (
        MixerModel,
        MixerStep,
    ) {
        (self.emptied(), MixerStep::Finished(Err(MixError { command, message })))
    }

    /// What the oldest music command asks of the backend.
    pub open spec fn music_request(self, command: MusicCommand) -> MixerRequest {
        match command {
            MusicCommand::Play(bgm_handle, fade_in) => MixerRequest::FadeInMusic {
                music_index: self.bgms[bgm_handle@ as int].music_index,
                fade_in,
            },
            MusicCommand::Stop(fade_out) => MixerRequest::FadeOutMusic { fade_out },
            MusicCommand::Volume(volume) => MixerRequest::SetMusicVolume { volume },
        }
    }

    /// Takes commands off the queues, oldest first and sound effects before
    /// music, up to and including the first one that needs the backend.
    ///
    /// A play asks for a channel and waits for it. A volume or a panning for a
    /// sound that has no channel on record asks nothing and is dropped. Every
    /// music command asks something and waits for nothing. With both queues
    /// empty the drain is over.
    pub open spec fn proceed(self) -> (MixerModel, MixerStep)
        recommends
            self.pending == Pending::Nothing,
        decreases self.sfx_commands.len(),
    {
        if self.sfx_commands.len() > 0 {
            let command = self.sfx_commands.first();
            let rest = MixerModel { sfx_commands: self.sfx_commands.drop_first(), ..self };
            match (command.variant, self.sfx(command.sfx_handle).channel) {
                (SfxVariant::Play, _) => (
                    MixerModel {
                        pending: Pending::Channel { sfx_handle: command.sfx_handle },
                        ..rest
                    },
                    MixerStep::Ask(
                        MixerRequest::PlayChunk {
                            chunk_index: self.sfx(command.sfx_handle).chunk_index,
                        },
                    ),
                ),
                (SfxVariant::Volume(volume), Some(channel)) => (
                    rest,
                    MixerStep::Ask(MixerRequest::SetVolume { channel, volume }),
                ),
                (SfxVariant::Pan(left, right), Some(channel)) => (
                    MixerModel { pending: Pending::Panning { command }, ..rest },
                    MixerStep::Ask(MixerRequest::SetPanning { channel, left, right }),
                ),
                (_, None) => rest.proceed(),
            }
        } else if self.music_commands.len() > 0 {
            (
                MixerModel { music_commands: self.music_commands.drop_first(), ..self },
                MixerStep::Ask(self.music_request(self.music_commands.first())),
            )
        } else {
            (self, MixerStep::Finished(Ok(())))
        }
    }

    /// One turn of the drain: the mixer after it has been told `event`, and
    /// what it wants next.
    ///
    /// While a channel is awaited, [`MixerEvent::Playing`] brings it and the
    /// mixer asks to clear its effects; any other event means that none was
    /// free, and the play is dropped. While the clearing is awaited, a failure
    /// ends the drain; otherwise the channel goes on record for the sound and
    /// the mixer asks for full volume on it. While a panning is awaited, a
    /// failure ends the drain. In every other case the event changes nothing
    /// and the mixer goes on with the queues.
    pub open spec fn mixed(self, event: MixerEvent) -> (MixerModel, MixerStep) {
        match (self.pending, event) {
            (Pending::Channel { sfx_handle }, MixerEvent::Playing(channel)) => (
                MixerModel { pending: Pending::Effects { sfx_handle, channel }, ..self },
                MixerStep::Ask(MixerRequest::ClearEffects { channel }),
            ),
            (Pending::Effects { sfx_handle, channel }, MixerEvent::Failed(message)) => {
                self.aborted(SfxCommand { sfx_handle, variant: SfxVariant::Play }, message)
            },
            (Pending::Effects { sfx_handle, channel }, _) => (
                MixerModel { pending: Pending::Nothing, ..self.playing_on(sfx_handle, channel) },
                MixerStep::Ask(MixerRequest::MaxVolume { channel }),
            ),
            (Pending::Panning { command }, MixerEvent::Failed(message)) => {
                self.aborted(command, message)
            },
            _ => MixerModel { pending: Pending::Nothing, ..self }.proceed(),
        }
    }

    /// A whole drain, or as much of it as `answers` reaches: the mixer is told
    /// `event`, and each request it makes is answered by the next of
    /// `answers`. Gives the mixer that is left, the requests in the order in
    /// which they were made, and how the drain ended if it did.
    pub open spec fn drained(self, event: MixerEvent, answers: Seq<MixerEvent>) -> (
        MixerModel,
        Seq<MixerRequest>,
        Option<Result<(), MixError>>,
    )
        decreases answers.len(),
    {
        match self.mixed(event) {
            (left, MixerStep::Finished(end)) => (left, Seq::empty(), Some(end)),
            (next, MixerStep::Ask(request)) => if answers.len() == 0 {
                (next, seq![request], None)
            } else {
                let (left, asked, end) = next.drained(answers.first(), answers.drop_first());
                (left, seq![request] + asked, end)
            },
        }
    }

    /// The command that plays the sound at `handle`.
    pub open spec fn play_of(handle: Handle) -> SfxCommand {
        SfxCommand { sfx_handle: handle, variant: SfxVariant::Play }
    }

    /// Whether nothing queued or awaited will put the sound at `handle` on a
    /// channel.
    pub open spec fn never_plays(self, handle: Handle) -> bool {
        &&& forall|i: int|
            0 <= i < self.sfx_commands.len()
                ==> #[trigger] self.sfx_commands[i] != Self::play_of(handle)
        &&& match self.pending {
            Pending::Channel { sfx_handle } => sfx_handle != handle,
            Pending::Effects { sfx_handle, .. } => sfx_handle != handle,
            _ => true,
        }
    }

    /// An upper bound on the requests that are still to come.
    pub open spec fn requests_left(self) -> nat {
        3 * self.sfx_commands.len() + self.music_commands.len() + match self.pending {
            Pending::Channel { .. } => 2nat,
            Pending::Effects { .. } => 1nat,
            _ => 0nat,
        }
    }
}

/// The mixer that the five parts make up.
pub open spec fn model_of(
    sfxs: Sfxs,
    bgms: Bgms,
    sfx_commands: SfxCommands,
    music_commands: MusicCommands,
    pending: Pending,
) -> MixerModel {
    MixerModel {
        sfxs: sfxs@,
        bgms: bgms@,
        sfx_commands: sfx_commands.commands@,
        music_commands: music_commands.commands@,
        pending,
    }
}

} // verus!
