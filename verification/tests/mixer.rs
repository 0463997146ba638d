use basita::mixer::{
    mix, Bgm, Channel, MixError, Mixer, MixerEvent, MixerRequest, MixerStep, MusicCommand,
    Pending, Sfx, SfxCommand, SfxVariant,
};
use basita::registry::Handle;

/// Runs a drain to its end, answering the requests with `answers` in turn and
/// with `Done` once they are used up. Returns what was asked and how the drain
/// ended.
fn drain(mixer: &mut Mixer, answers: Vec<MixerEvent>) -> (Vec<MixerRequest>, Result<(), MixError>) {
    let mut asked = Vec::new();
    let mut answers = answers.into_iter();
    let mut event = MixerEvent::Start;
    loop {
        assert!(mixer.is_consistent());
        match mixer.mix(event) {
            MixerStep::Ask(request) => {
                asked.push(request);
                event = answers.next().unwrap_or(MixerEvent::Done);
            }
            MixerStep::Finished(result) => return (asked, result),
        }
    }
}

fn mixer_with_sound(chunk_index: usize) -> (Mixer, Handle) {
    let mut mixer = Mixer::new();
    let sound = mixer.sfxs.add(Sfx { chunk_index, channel: None });
    (mixer, sound)
}

fn assert_drained(mixer: &Mixer) {
    assert!(mixer.sfx_commands.commands.is_empty());
    assert!(mixer.music_commands.commands.is_empty());
    assert_eq!(mixer.pending, Pending::Nothing);
}

#[test]
fn volume_for_a_sound_never_played_does_nothing() {
    let (mut mixer, sound) = mixer_with_sound(4);
    mixer.sfx_commands.add_volume(sound, 64);
    assert_eq!(mixer.mix(MixerEvent::Start), MixerStep::Finished(Ok(())));
    assert_eq!(*mixer.sfxs.get(sound), Sfx { chunk_index: 4, channel: None });
    assert_drained(&mixer);
}

#[test]
fn panning_for_a_sound_never_played_does_nothing() {
    let (mut mixer, sound) = mixer_with_sound(4);
    mixer.sfx_commands.add_pan(sound, 255, 0);
    let (asked, result) = drain(&mut mixer, vec![]);
    assert_eq!(asked, vec![]);
    assert_eq!(result, Ok(()));
    assert_drained(&mixer);
}

#[test]
fn play_without_a_free_channel_is_dropped() {
    let (mut mixer, sound) = mixer_with_sound(4);
    mixer.sfx_commands.add_play(sound);
    assert_eq!(
        mixer.mix(MixerEvent::Start),
        MixerStep::Ask(MixerRequest::PlayChunk { chunk_index: 4 })
    );
    assert_eq!(mixer.pending, Pending::Channel { sfx_handle: sound });
    let exhausted = MixerEvent::Failed("No free channels available".to_string());
    assert_eq!(mixer.mix(exhausted), MixerStep::Finished(Ok(())));
    assert_eq!(mixer.sfxs.get(sound).channel, None);
    assert_drained(&mixer);
}

#[test]
fn play_that_is_dropped_lets_the_rest_go_on() {
    let (mut mixer, first) = mixer_with_sound(4);
    let second = mixer.sfxs.add(Sfx { chunk_index: 5, channel: None });
    mixer.sfx_commands.add_play(first);
    mixer.sfx_commands.add_play(second);
    let (asked, result) = drain(
        &mut mixer,
        vec![
            MixerEvent::Failed("No free channels available".to_string()),
            MixerEvent::Playing(Channel(0)),
        ],
    );
    assert_eq!(
        asked,
        vec![
            MixerRequest::PlayChunk { chunk_index: 4 },
            MixerRequest::PlayChunk { chunk_index: 5 },
            MixerRequest::ClearEffects { channel: Channel(0) },
            MixerRequest::MaxVolume { channel: Channel(0) },
        ]
    );
    assert_eq!(result, Ok(()));
    assert_eq!(mixer.sfxs.get(first).channel, None);
    assert_eq!(mixer.sfxs.get(second).channel, Some(Channel(0)));
}

#[test]
fn rejected_panning_ends_the_drain_and_empties_the_queue() {
    let (mut mixer, sound) = mixer_with_sound(4);
    mixer.sfxs.get_mut(sound).channel = Some(Channel(3));
    mixer.sfx_commands.add_pan(sound, 200, 100);
    mixer.sfx_commands.add_volume(sound, 10);
    mixer.music_commands.add_stop(500);
    assert_eq!(
        mixer.mix(MixerEvent::Start),
        MixerStep::Ask(MixerRequest::SetPanning { channel: Channel(3), left: 200, right: 100 })
    );
    let step = mixer.mix(MixerEvent::Failed("Invalid panning".to_string()));
    assert_eq!(
        step,
        MixerStep::Finished(Err(MixError {
            command: SfxCommand { sfx_handle: sound, variant: SfxVariant::Pan(200, 100) },
            message: "Invalid panning".to_string(),
        }))
    );
    assert_drained(&mixer);
    assert_eq!(mixer.sfxs.get(sound).channel, Some(Channel(3)));
    assert_eq!(mixer.mix(MixerEvent::Start), MixerStep::Finished(Ok(())));
}

#[test]
fn accepted_panning_lets_the_drain_go_on() {
    let (mut mixer, sound) = mixer_with_sound(4);
    mixer.sfxs.get_mut(sound).channel = Some(Channel(3));
    mixer.sfx_commands.add_pan(sound, 0, 255);
    mixer.sfx_commands.add_volume(sound, 10);
    let (asked, result) = drain(&mut mixer, vec![]);
    assert_eq!(
        asked,
        vec![
            MixerRequest::SetPanning { channel: Channel(3), left: 0, right: 255 },
            MixerRequest::SetVolume { channel: Channel(3), volume: 10 },
        ]
    );
    assert_eq!(result, Ok(()));
    assert_drained(&mixer);
}

#[test]
fn play_records_the_channel_and_resets_it() {
    let (mut mixer, sound) = mixer_with_sound(9);
    mixer.sfx_commands.add_play(sound);
    assert_eq!(
        mixer.mix(MixerEvent::Start),
        MixerStep::Ask(MixerRequest::PlayChunk { chunk_index: 9 })
    );
    assert_eq!(
        mixer.mix(MixerEvent::Playing(Channel(5))),
        MixerStep::Ask(MixerRequest::ClearEffects { channel: Channel(5) })
    );
    assert_eq!(mixer.sfxs.get(sound).channel, None);
    assert_eq!(
        mixer.mix(MixerEvent::Done),
        MixerStep::Ask(MixerRequest::MaxVolume { channel: Channel(5) })
    );
    assert_eq!(mixer.sfxs.get(sound).channel, Some(Channel(5)));
    assert_eq!(mixer.mix(MixerEvent::Done), MixerStep::Finished(Ok(())));
    assert_eq!(*mixer.sfxs.get(sound), Sfx { chunk_index: 9, channel: Some(Channel(5)) });
    assert_drained(&mixer);
}

#[test]
fn play_again_moves_the_sound_to_the_new_channel() {
    let (mut mixer, sound) = mixer_with_sound(9);
    mixer.sfxs.get_mut(sound).channel = Some(Channel(1));
    mixer.sfx_commands.add_play(sound);
    mixer.sfx_commands.add_volume(sound, 30);
    let (asked, result) = drain(&mut mixer, vec![MixerEvent::Playing(Channel(6))]);
    assert_eq!(
        asked,
        vec![
            MixerRequest::PlayChunk { chunk_index: 9 },
            MixerRequest::ClearEffects { channel: Channel(6) },
            MixerRequest::MaxVolume { channel: Channel(6) },
            MixerRequest::SetVolume { channel: Channel(6), volume: 30 },
        ]
    );
    assert_eq!(result, Ok(()));
    assert_eq!(mixer.sfxs.get(sound).channel, Some(Channel(6)));
}

#[test]
fn effects_that_cannot_be_cleared_end_the_drain() {
    let (mut mixer, sound) = mixer_with_sound(9);
    mixer.sfx_commands.add_play(sound);
    mixer.sfx_commands.add_play(sound);
    mixer.music_commands.add_volume(20);
    let (asked, result) = drain(
        &mut mixer,
        vec![MixerEvent::Playing(Channel(2)), MixerEvent::Failed("No such effect".to_string())],
    );
    assert_eq!(
        asked,
        vec![
            MixerRequest::PlayChunk { chunk_index: 9 },
            MixerRequest::ClearEffects { channel: Channel(2) },
        ]
    );
    assert_eq!(
        result,
        Err(MixError {
            command: SfxCommand { sfx_handle: sound, variant: SfxVariant::Play },
            message: "No such effect".to_string(),
        })
    );
    assert_eq!(mixer.sfxs.get(sound).channel, None);
    assert_drained(&mixer);
}

#[test]
fn volume_in_the_frame_of_the_play_reaches_the_new_channel() {
    let (mut mixer, sound) = mixer_with_sound(1);
    mixer.sfx_commands.add_volume(sound, 11);
    mixer.sfx_commands.add_play(sound);
    mixer.sfx_commands.add_volume(sound, 22);
    mixer.sfx_commands.add_pan(sound, 1, 2);
    let (asked, result) = drain(&mut mixer, vec![MixerEvent::Playing(Channel(0))]);
    assert_eq!(
        asked,
        vec![
            MixerRequest::PlayChunk { chunk_index: 1 },
            MixerRequest::ClearEffects { channel: Channel(0) },
            MixerRequest::MaxVolume { channel: Channel(0) },
            MixerRequest::SetVolume { channel: Channel(0), volume: 22 },
            MixerRequest::SetPanning { channel: Channel(0), left: 1, right: 2 },
        ]
    );
    assert_eq!(result, Ok(()));
}

#[test]
fn volume_after_a_dropped_play_stays_silent() {
    let (mut mixer, sound) = mixer_with_sound(1);
    mixer.sfx_commands.add_play(sound);
    mixer.sfx_commands.add_volume(sound, 22);
    let (asked, result) = drain(&mut mixer, vec![MixerEvent::Failed("busy".to_string())]);
    assert_eq!(asked, vec![MixerRequest::PlayChunk { chunk_index: 1 }]);
    assert_eq!(result, Ok(()));
    assert_eq!(mixer.sfxs.get(sound).channel, None);
}

#[test]
fn music_commands_are_asked_in_order() {
    let mut mixer = Mixer::new();
    mixer.bgms.add(Bgm { music_index: 40 });
    let theme = mixer.bgms.add(Bgm { music_index: 41 });
    mixer.music_commands.add_stop(250);
    mixer.music_commands.add_play(theme, 1000);
    mixer.music_commands.add_volume(96);
    let (asked, result) = drain(&mut mixer, vec![]);
    assert_eq!(
        asked,
        vec![
            MixerRequest::FadeOutMusic { fade_out: 250 },
            MixerRequest::FadeInMusic { music_index: 41, fade_in: 1000 },
            MixerRequest::SetMusicVolume { volume: 96 },
        ]
    );
    assert_eq!(result, Ok(()));
    assert_drained(&mixer);
}

#[test]
fn music_failures_are_swallowed() {
    let mut mixer = Mixer::new();
    let theme = mixer.bgms.add(Bgm { music_index: 7 });
    mixer.music_commands.add_play(theme, 300);
    mixer.music_commands.add_stop(300);
    mixer.music_commands.add_volume(1);
    let (asked, result) = drain(
        &mut mixer,
        vec![
            MixerEvent::Failed("no device".to_string()),
            MixerEvent::Failed("nothing plays".to_string()),
            MixerEvent::Failed("cannot be".to_string()),
        ],
    );
    assert_eq!(asked.len(), 3);
    assert_eq!(result, Ok(()));
    assert_drained(&mixer);
}

#[test]
fn sound_effects_are_drained_before_music() {
    let (mut mixer, sound) = mixer_with_sound(2);
    mixer.sfxs.get_mut(sound).channel = Some(Channel(8));
    mixer.music_commands.add_volume(5);
    mixer.sfx_commands.add_volume(sound, 6);
    let (asked, result) = drain(&mut mixer, vec![]);
    assert_eq!(
        asked,
        vec![
            MixerRequest::SetVolume { channel: Channel(8), volume: 6 },
            MixerRequest::SetMusicVolume { volume: 5 },
        ]
    );
    assert_eq!(result, Ok(()));
}

#[test]
fn an_empty_frame_is_over_at_once() {
    let mut mixer = Mixer::default();
    assert!(mixer.is_consistent());
    assert_eq!(mixer.mix(MixerEvent::Start), MixerStep::Finished(Ok(())));
    assert_eq!(mixer.mix(MixerEvent::Done), MixerStep::Finished(Ok(())));
    assert_drained(&mixer);
}

#[test]
fn commands_are_queued_oldest_first() {
    let (mut mixer, sound) = mixer_with_sound(2);
    mixer.sfx_commands.add_play(sound);
    mixer.sfx_commands.add_volume(sound, -3);
    mixer.sfx_commands.add_pan(sound, 7, 8);
    let queued: Vec<SfxCommand> = mixer.sfx_commands.commands.iter().copied().collect();
    assert_eq!(
        queued,
        vec![
            SfxCommand { sfx_handle: sound, variant: SfxVariant::Play },
            SfxCommand { sfx_handle: sound, variant: SfxVariant::Volume(-3) },
            SfxCommand { sfx_handle: sound, variant: SfxVariant::Pan(7, 8) },
        ]
    );
    mixer.music_commands.add_play(Handle::from_index(0), 10);
    mixer.music_commands.add_stop(20);
    mixer.music_commands.add_volume(30);
    let queued: Vec<MusicCommand> = mixer.music_commands.commands.iter().copied().collect();
    assert_eq!(
        queued,
        vec![
            MusicCommand::Play(Handle::from_index(0), 10),
            MusicCommand::Stop(20),
            MusicCommand::Volume(30),
        ]
    );
}

#[test]
fn commands_for_unknown_handles_are_found_out() {
    let (mut mixer, sound) = mixer_with_sound(2);
    mixer.sfx_commands.add_volume(sound, 1);
    assert!(mixer.is_consistent());
    mixer.sfx_commands.add_play(Handle::from_index(1));
    assert!(!mixer.is_consistent());
    mixer.sfxs.add(Sfx { chunk_index: 3, channel: None });
    assert!(mixer.is_consistent());
    mixer.music_commands.add_stop(1);
    mixer.music_commands.add_play(Handle::from_index(0), 1);
    assert!(!mixer.is_consistent());
    mixer.bgms.add(Bgm { music_index: 0 });
    assert!(mixer.is_consistent());
    mixer.pending = Pending::Channel { sfx_handle: Handle::from_index(2) };
    assert!(!mixer.is_consistent());
    mixer.pending = Pending::Effects { sfx_handle: Handle::from_index(2), channel: Channel(0) };
    assert!(!mixer.is_consistent());
    mixer.pending = Pending::Effects { sfx_handle: Handle::from_index(1), channel: Channel(0) };
    assert!(mixer.is_consistent());
}

#[test]
fn mix_on_the_parts_of_a_mixer() {
    let (mut mixer, sound) = mixer_with_sound(12);
    mixer.sfx_commands.add_play(sound);
    let step = mix(
        &mut mixer.sfxs,
        &mixer.bgms,
        &mut mixer.sfx_commands,
        &mut mixer.music_commands,
        &mut mixer.pending,
        MixerEvent::Start,
    );
    assert_eq!(step, MixerStep::Ask(MixerRequest::PlayChunk { chunk_index: 12 }));
    assert_eq!(mixer.pending, Pending::Channel { sfx_handle: sound });
}

#[test]
fn a_drain_asks_at_most_three_times_per_sound_command() {
    let (mut mixer, sound) = mixer_with_sound(0);
    let mut answers = Vec::new();
    for round in 0..40 {
        mixer.sfx_commands.add_play(sound);
        mixer.sfx_commands.add_volume(sound, round);
        mixer.music_commands.add_volume(round);
        answers.push(MixerEvent::Playing(Channel(round)));
        answers.push(MixerEvent::Done);
        answers.push(MixerEvent::Done);
        answers.push(MixerEvent::Done);
    }
    let (asked, result) = drain(&mut mixer, answers);
    assert_eq!(asked.len(), 40 * 4 + 40);
    assert!(asked.len() <= 3 * 80 + 40);
    assert_eq!(result, Ok(()));
    assert_eq!(mixer.sfxs.get(sound).channel, Some(Channel(39)));
}
