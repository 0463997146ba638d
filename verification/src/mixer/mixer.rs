//! The mixer and its drain.

use crate::mixer::laws::{
    lemma_every_request_counts, lemma_finished_leaves_nothing, lemma_mixed_stays_consistent,
};
use crate::mixer::model::{model_of, MixerModel};
use crate::mixer::protocol::{MixError, MixerEvent, MixerRequest, MixerStep, Pending};
use crate::mixer::resources::{
    Bgms, MusicCommand, MusicCommands, SfxCommand, SfxCommands, SfxVariant, Sfxs,
};
use crate::registry::Registry;
use vstd::prelude::*;

verus! {

/// The sounds, the tracks, the two queues and the drain in flight.
pub struct Mixer {
    pub sfxs: Sfxs,
    pub bgms: Bgms,
    pub sfx_commands: SfxCommands,
    pub music_commands: MusicCommands,
    pub pending: Pending,
}

impl View for Mixer {
    type V = MixerModel;

    open spec fn view(&self) -> MixerModel {
        MixerModel {
            sfxs: self.sfxs@,
            bgms: self.bgms@,
            sfx_commands: self.sfx_commands.commands@,
            music_commands: self.music_commands.commands@,
            pending: self.pending,
        }
    }
}

/// Goes on with the queues while nothing is awaited.
fn proceed(
    sfxs: &Sfxs,
    bgms: &Bgms,
    sfx_commands: &mut SfxCommands,
    music_commands: &mut MusicCommands,
    pending: &mut Pending,
) -> (step: MixerStep)
    requires
        model_of(*sfxs, *bgms, *old(sfx_commands), *old(music_commands), *old(pending))
            .consistent(),
        *old(pending) == Pending::Nothing,
    ensures
        (
            model_of(*sfxs, *bgms, *final(sfx_commands), *final(music_commands), *final(pending)),
            step,
        ) == model_of(*sfxs, *bgms, *old(sfx_commands), *old(music_commands), *old(pending))
            .proceed(),
{
    let ghost start = model_of(*sfxs, *bgms, *sfx_commands, *music_commands, *pending);
    while sfx_commands.commands.len() > 0
        invariant
            *pending == Pending::Nothing,
            model_of(*sfxs, *bgms, *sfx_commands, *music_commands, *pending).consistent(),
            start == model_of(
                *sfxs,
                *bgms,
                *old(sfx_commands),
                *old(music_commands),
                *old(pending),
            ),
            model_of(*sfxs, *bgms, *sfx_commands, *music_commands, *pending).proceed()
                == start.proceed(),
        decreases sfx_commands.commands.len(),
    {
        let ghost before = model_of(*sfxs, *bgms, *sfx_commands, *music_commands, *pending);
        let command = sfx_commands.commands.pop_front().unwrap();
        assert(command == before.sfx_commands.first());
        assert(sfx_commands.commands@ =~= before.sfx_commands.drop_first());
        let sfx = sfxs.get(command.sfx_handle);
        match command.variant {
            SfxVariant::Play => {
                *pending = Pending::Channel { sfx_handle: command.sfx_handle };
                return MixerStep::Ask(MixerRequest::PlayChunk { chunk_index: sfx.chunk_index });
            },
            SfxVariant::Volume(volume) => {
                if let Some(channel) = sfx.channel {
                    return MixerStep::Ask(MixerRequest::SetVolume { channel, volume });
                }
            },
            SfxVariant::Pan(left, right) => {
                if let Some(channel) = sfx.channel {
                    *pending = Pending::Panning { command };
                    return MixerStep::Ask(MixerRequest::SetPanning { channel, left, right });
                }
            },
        }
    }
    let ghost before = model_of(*sfxs, *bgms, *sfx_commands, *music_commands, *pending);
    match music_commands.commands.pop_front() {
        Some(command) => {
            assert(music_commands.commands@ =~= before.music_commands.drop_first());
            let request = match command {
                MusicCommand::Play(bgm_handle, fade_in) => MixerRequest::FadeInMusic {
                    music_index: bgms.get(bgm_handle).music_index,
                    fade_in,
                },
                MusicCommand::Stop(fade_out) => MixerRequest::FadeOutMusic { fade_out },
                MusicCommand::Volume(volume) => MixerRequest::SetMusicVolume { volume },
            };
            MixerStep::Ask(request)
        },
        None => MixerStep::Finished(Ok(())),
    }
}

/// One turn of the drain, on the parts of a mixer: takes what the backend
/// answered to the previous request and returns the next request, or the end
/// of the drain.
///
/// The first call of a drain passes [`MixerEvent::Start`]. Each
/// [`MixerStep::Ask`] is to be carried out and answered by the next call:
/// [`MixerEvent::Playing`] with the channel where a play succeeded,
/// [`MixerEvent::Failed`] where the backend reported an error,
/// [`MixerEvent::Done`] otherwise. After [`MixerStep::Finished`] both queues
/// are empty.
pub fn mix(
    sfxs: &mut Sfxs,
    bgms: &Bgms,
    sfx_commands: &mut SfxCommands,
    music_commands: &mut MusicCommands,
    pending: &mut Pending,
    event: MixerEvent,
) -> (step: MixerStep)
    requires
        model_of(*old(sfxs), *bgms, *old(sfx_commands), *old(music_commands), *old(pending))
            .consistent(),
    ensures
        (
            model_of(
                *final(sfxs),
                *bgms,
                *final(sfx_commands),
                *final(music_commands),
                *final(pending),
            ),
            step,
        ) == model_of(*old(sfxs), *bgms, *old(sfx_commands), *old(music_commands), *old(pending))
            .mixed(event),
        model_of(
            *final(sfxs),
            *bgms,
            *final(sfx_commands),
            *final(music_commands),
            *final(pending),
        ).consistent(),
        step is Ask ==> model_of(
            *final(sfxs),
            *bgms,
            *final(sfx_commands),
            *final(music_commands),
            *final(pending),
        ).requests_left() < model_of(
            *old(sfxs),
            *bgms,
            *old(sfx_commands),
            *old(music_commands),
            *old(pending),
        ).requests_left(),
        step is Finished ==> final(sfx_commands).commands@.len() == 0,
        step is Finished ==> final(music_commands).commands@.len() == 0,
        step is Finished ==> *final(pending) == Pending::Nothing,
{
    let ghost start = model_of(*sfxs, *bgms, *sfx_commands, *music_commands, *pending);
    proof {
        lemma_mixed_stays_consistent(start, event);
        lemma_every_request_counts(start, event);
        lemma_finished_leaves_nothing(start, event);
    }
    match *pending {
        Pending::Channel { sfx_handle } => {
            if let MixerEvent::Playing(channel) = event {
                *pending = Pending::Effects { sfx_handle, channel };
                return MixerStep::Ask(MixerRequest::ClearEffects { channel });
            }
        },
        Pending::Effects { sfx_handle, channel } => {
            if let MixerEvent::Failed(message) = event {
                sfx_commands.commands.clear();
                music_commands.commands.clear();
                *pending = Pending::Nothing;
                let command = SfxCommand { sfx_handle, variant: SfxVariant::Play };
                return MixerStep::Finished(Err(MixError { command, message }));
            }
            let sfx = sfxs.get_mut(sfx_handle);
            sfx.channel = Some(channel);
            *pending = Pending::Nothing;
            return MixerStep::Ask(MixerRequest::MaxVolume { channel });
        },
        Pending::Panning { command } => {
            if let MixerEvent::Failed(message) = event {
                sfx_commands.commands.clear();
                music_commands.commands.clear();
                *pending = Pending::Nothing;
                return MixerStep::Finished(Err(MixError { command, message }));
            }
        },
        Pending::Nothing => {},
    }
    *pending = Pending::Nothing;
    proceed(sfxs, bgms, sfx_commands, music_commands, pending)
}

impl Default for Mixer {
    fn default() -> (mixer: Mixer)
        ensures
            mixer@ == MixerModel::silent(),
    {
        Mixer::new()
    }
}

impl Mixer {
    /// A mixer without sounds, tracks or commands.
    pub fn new() -> (mixer: Self)
        ensures
            mixer@ == MixerModel::silent(),
    {
        Mixer {
            sfxs: Registry::new(),
            bgms: Registry::new(),
            sfx_commands: SfxCommands::new(),
            music_commands: MusicCommands::new(),
            pending: Pending::Nothing,
        }
    }

    /// Whether every handle that a drain will resolve names a stored sound
    /// or track, which is what [`Mixer::mix`] asks for.
    pub fn is_consistent(&self) -> (consistent: bool)
        ensures
            consistent == self@.consistent(),
    {
        let mut at: usize = 0;
        while at < self.sfx_commands.commands.len()
            invariant
                at <= self.sfx_commands.commands@.len(),
                forall|i: int|
                    0 <= i < at
                        ==> (#[trigger] self@.sfx_commands[i]).sfx_handle@ < self@.sfxs.len(),
            decreases self.sfx_commands.commands@.len() - at,
        {
            if !self.sfxs.contains(self.sfx_commands.commands[at].sfx_handle) {
                assert(self@.sfx_commands[at as int].sfx_handle@ >= self@.sfxs.len());
                return false;
            }
            at += 1;
        }
        let mut at: usize = 0;
        while at < self.music_commands.commands.len()
            invariant
                at <= self.music_commands.commands@.len(),
                forall|i: int|
                    0 <= i < at ==> self@.knows_track(#[trigger] self@.music_commands[i]),
            decreases self.music_commands.commands@.len() - at,
        {
            if let MusicCommand::Play(bgm_handle, _) = self.music_commands.commands[at] {
                if !self.bgms.contains(bgm_handle) {
                    assert(!self@.knows_track(self@.music_commands[at as int]));
                    return false;
                }
            }
            at += 1;
        }
        match self.pending {
            Pending::Channel { sfx_handle } => self.sfxs.contains(sfx_handle),
            Pending::Effects { sfx_handle, .. } => self.sfxs.contains(sfx_handle),
            _ => true,
        }
    }

    /// One turn of the drain: see [`mix`].
    pub fn mix(&mut self, event: MixerEvent) -> (step: MixerStep)
        requires
            old(self)@.consistent(),
        ensures
            (final(self)@, step) == old(self)@.mixed(event),
            final(self)@.consistent(),
            step is Ask ==> final(self)@.requests_left() < old(self)@.requests_left(),
            step is Finished ==> final(self)@.sfx_commands.len() == 0,
            step is Finished ==> final(self)@.music_commands.len() == 0,
            step is Finished ==> final(self)@.pending == Pending::Nothing,
    {
        mix(
            &mut self.sfxs,
            &self.bgms,
            &mut self.sfx_commands,
            &mut self.music_commands,
            &mut self.pending,
            event,
        )
    }
}

} // verus!
