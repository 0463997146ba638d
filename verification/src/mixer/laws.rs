//! What holds of every drain.

use crate::mixer::model::MixerModel;
use crate::mixer::protocol::{MixError, MixerEvent, MixerStep, Pending};
use crate::mixer::resources::{SfxCommand, SfxVariant};
use crate::registry::{lemma_handle_is_its_index, Handle};
use vstd::prelude::*;

verus! {

/// A turn of the drain keeps every handle resolvable.
pub proof fn lemma_mixed_stays_consistent(mixer: MixerModel, event: MixerEvent)
    requires
        mixer.consistent(),
    ensures
        mixer.mixed(event).0.consistent(),
{
    lemma_proceed_stays_consistent(MixerModel { pending: Pending::Nothing, ..mixer });
}

/// Going on with the queues keeps every handle resolvable.
pub proof fn lemma_proceed_stays_consistent(mixer: MixerModel)
    requires
        mixer.consistent(),
        mixer.pending == Pending::Nothing,
    ensures
        mixer.proceed().0.consistent(),
    decreases mixer.sfx_commands.len(),
{
    if mixer.sfx_commands.len() > 0 {
        let rest = MixerModel { sfx_commands: mixer.sfx_commands.drop_first(), ..mixer };
        assert forall|i: int| 0 <= i < rest.sfx_commands.len() implies
            (#[trigger] rest.sfx_commands[i]).sfx_handle@ < rest.sfxs.len()
        by {
            assert(rest.sfx_commands[i] == mixer.sfx_commands[i + 1]);
        }
        lemma_proceed_stays_consistent(rest);
    } else if mixer.music_commands.len() > 0 {
        let rest = mixer.music_commands.drop_first();
        assert forall|i: int| 0 <= i < rest.len() implies mixer.knows_track(#[trigger] rest[i]) by {
            assert(rest[i] == mixer.music_commands[i + 1]);
        }
    }
}

/// The drain ends: with every request that a turn asks, fewer are left to ask.
pub proof fn lemma_every_request_counts(mixer: MixerModel, event: MixerEvent)
    ensures
        mixer.mixed(event).1 is Ask
            ==> mixer.mixed(event).0.requests_left() < mixer.requests_left(),
{
    lemma_proceed_counts(MixerModel { pending: Pending::Nothing, ..mixer });
}

/// Going on with the queues asks for something or ends the drain, and what it
/// asks for counts.
pub proof fn lemma_proceed_counts(mixer: MixerModel)
    requires
        mixer.pending == Pending::Nothing,
    ensures
        mixer.proceed().1 is Ask ==> mixer.proceed().0.requests_left() < mixer.requests_left(),
        mixer.proceed().0.requests_left() <= mixer.requests_left(),
    decreases mixer.sfx_commands.len(),
{
    if mixer.sfx_commands.len() > 0 {
        lemma_proceed_counts(
            MixerModel { sfx_commands: mixer.sfx_commands.drop_first(), ..mixer },
        );
    }
}

/// The queues never outlive a drain: when a turn ends the drain, in success
/// or in failure, both queues are empty and nothing is awaited.
pub proof fn lemma_finished_leaves_nothing(mixer: MixerModel, event: MixerEvent)
    ensures
        mixer.mixed(event).1 is Finished ==> mixer.mixed(event).0.sfx_commands.len() == 0,
        mixer.mixed(event).1 is Finished ==> mixer.mixed(event).0.music_commands.len() == 0,
        mixer.mixed(event).1 is Finished ==> mixer.mixed(event).0.pending == Pending::Nothing,
{
    lemma_proceed_finishes_empty(MixerModel { pending: Pending::Nothing, ..mixer });
}

/// Going on with the queues ends the drain only when both are empty, and
/// never in failure.
pub proof fn lemma_proceed_finishes_empty(mixer: MixerModel)
    requires
        mixer.pending == Pending::Nothing,
    ensures
        mixer.proceed().1 is Finished ==> mixer.proceed().0.sfx_commands.len() == 0,
        mixer.proceed().1 is Finished ==> mixer.proceed().0.music_commands.len() == 0,
        mixer.proceed().1 is Finished ==> mixer.proceed().0.pending == Pending::Nothing,
        mixer.proceed().1 is Finished ==> mixer.proceed().1 == MixerStep::Finished(Ok(())),
    decreases mixer.sfx_commands.len(),
{
    if mixer.sfx_commands.len() > 0 {
        lemma_proceed_finishes_empty(
            MixerModel { sfx_commands: mixer.sfx_commands.drop_first(), ..mixer },
        );
    }
}

/// A volume or panning command for a sound that has no channel on record
/// does nothing: no request is made for it and no error comes of it. The
/// drain goes on as if the command had not been queued.
pub proof fn lemma_unplayed_sound_asks_nothing(mixer: MixerModel)
    requires
        mixer.sfx_commands.len() > 0,
        mixer.sfx_commands.first().variant != SfxVariant::Play,
        mixer.sfx(mixer.sfx_commands.first().sfx_handle).channel is None,
    ensures
        mixer.proceed()
            == (MixerModel { sfx_commands: mixer.sfx_commands.drop_first(), ..mixer }).proceed(),
{
}

/// A play that finds no free channel is given up without a trace: the sound
/// keeps whatever channel it had on record, and the drain goes on.
pub proof fn lemma_no_channel_no_play(mixer: MixerModel, sfx_handle: Handle, event: MixerEvent)
    requires
        mixer.pending == (Pending::Channel { sfx_handle }),
        !(event is Playing),
    ensures
        mixer.mixed(event) == (MixerModel { pending: Pending::Nothing, ..mixer }).proceed(),
        mixer.mixed(event).0.sfxs == mixer.sfxs,
{
    lemma_proceed_keeps_sounds(MixerModel { pending: Pending::Nothing, ..mixer });
}

/// Going on with the queues changes neither sounds nor tracks.
pub proof fn lemma_proceed_keeps_sounds(mixer: MixerModel)
    ensures
        mixer.proceed().0.sfxs == mixer.sfxs,
        mixer.proceed().0.bgms == mixer.bgms,
    decreases mixer.sfx_commands.len(),
{
    if mixer.sfx_commands.len() > 0 {
        lemma_proceed_keeps_sounds(
            MixerModel { sfx_commands: mixer.sfx_commands.drop_first(), ..mixer },
        );
    }
}

/// A rejected panning ends the drain with the command and the backend's
/// words, and leaves both queues empty.
pub proof fn lemma_rejected_panning_is_fatal(
    mixer: MixerModel,
    command: SfxCommand,
    message: String,
)
    requires
        mixer.pending == (Pending::Panning { command }),
    ensures
        mixer.mixed(MixerEvent::Failed(message)) == (
            mixer.emptied(),
            MixerStep::Finished(Err(MixError { command, message })),
        ),
{
}

/// A turn of the drain changes nothing of a track, and nothing of a sound but
/// the channel on record. That channel changes in one case only: the effects
/// of the channel that a play got have been cleared, and the channel goes on
/// record for the sound played.
pub proof fn lemma_only_play_records_channels(mixer: MixerModel, event: MixerEvent)
    ensures
        mixer.mixed(event).0.bgms == mixer.bgms,
        mixer.puts_on_record(event) is None ==> mixer.mixed(event).0.sfxs == mixer.sfxs,
        mixer.puts_on_record(event) matches Some((handle, channel))
            ==> mixer.mixed(event).0.sfxs == mixer.playing_on(handle, channel).sfxs,
{
    lemma_proceed_keeps_sounds(MixerModel { pending: Pending::Nothing, ..mixer });
}

/// A drain asks no more than three requests for each sound command and one
/// for each music command, whatever the backend answers.
pub proof fn lemma_drain_is_bounded(mixer: MixerModel, event: MixerEvent, answers: Seq<MixerEvent>)
    ensures
        mixer.drained(event, answers).1.len()
            + mixer.drained(event, answers).0.requests_left() <= mixer.requests_left(),
        mixer.drained(event, answers).1.len() <= answers.len() + 1,
    decreases answers.len(),
{
    lemma_every_request_counts(mixer, event);
    lemma_proceed_counts(MixerModel { pending: Pending::Nothing, ..mixer });
    if mixer.mixed(event).1 is Ask && answers.len() > 0 {
        lemma_drain_is_bounded(mixer.mixed(event).0, answers.first(), answers.drop_first());
    }
}

/// With answers enough, every drain comes to its end and leaves both queues
/// empty.
pub proof fn lemma_drain_ends(mixer: MixerModel, event: MixerEvent, answers: Seq<MixerEvent>)
    requires
        answers.len() >= mixer.requests_left(),
    ensures
        mixer.drained(event, answers).2 is Some,
        mixer.drained(event, answers).0.sfx_commands.len() == 0,
        mixer.drained(event, answers).0.music_commands.len() == 0,
        mixer.drained(event, answers).0.pending == Pending::Nothing,
    decreases answers.len(),
{
    lemma_every_request_counts(mixer, event);
    lemma_finished_leaves_nothing(mixer, event);
    if mixer.mixed(event).1 is Ask {
        lemma_drain_ends(mixer.mixed(event).0, answers.first(), answers.drop_first());
    }
}

/// The mixer once `extra` is queued behind its sound commands.
pub open spec fn with_queued(mixer: MixerModel, extra: SfxCommand) -> MixerModel {
    MixerModel { sfx_commands: mixer.sfx_commands.push(extra), ..mixer }
}

/// Whether `with` is `plain` with `extra` queued behind its sound commands,
/// or with that command gone again.
pub open spec fn queued_behind(with: MixerModel, plain: MixerModel, extra: SfxCommand) -> bool {
    &&& with.sfxs == plain.sfxs
    &&& with.bgms == plain.bgms
    &&& with.music_commands == plain.music_commands
    &&& with.pending == plain.pending
    &&& with.sfx_commands == plain.sfx_commands.push(extra)
        || with.sfx_commands == plain.sfx_commands
}

/// Whether `extra` changes the volume or the panning of a sound that has no
/// channel on record in `mixer` and will get none from what is queued.
pub open spec fn is_for_unplayed_sound(mixer: MixerModel, extra: SfxCommand) -> bool {
    &&& extra.variant != SfxVariant::Play
    &&& extra.sfx_handle@ < mixer.sfxs.len()
    &&& mixer.sfx(extra.sfx_handle).channel is None
    &&& mixer.never_plays(extra.sfx_handle)
}

/// Going on with the queues asks the same with and without a command for a
/// sound that was never played.
proof fn lemma_proceed_ignores_unplayed(with: MixerModel, plain: MixerModel, extra: SfxCommand)
    requires
        queued_behind(with, plain, extra),
        is_for_unplayed_sound(plain, extra),
        plain.pending == Pending::Nothing,
    ensures
        with.proceed().1 == plain.proceed().1,
        queued_behind(with.proceed().0, plain.proceed().0, extra),
        is_for_unplayed_sound(plain.proceed().0, extra),
    decreases plain.sfx_commands.len(),
{
    if plain.sfx_commands.len() > 0 {
        let first = plain.sfx_commands.first();
        let with_rest = MixerModel { sfx_commands: with.sfx_commands.drop_first(), ..with };
        let plain_rest = MixerModel { sfx_commands: plain.sfx_commands.drop_first(), ..plain };
        assert(with.sfx_commands.first() == first);
        assert(plain.sfx_commands.push(extra).drop_first()
            =~= plain.sfx_commands.drop_first().push(extra));
        assert forall|i: int| 0 <= i < plain_rest.sfx_commands.len() implies
            #[trigger] plain_rest.sfx_commands[i] != MixerModel::play_of(extra.sfx_handle)
        by {
            assert(plain_rest.sfx_commands[i] == plain.sfx_commands[i + 1]);
        }
        assert(plain.sfx_commands[0] == first);
        lemma_handle_is_its_index(first.sfx_handle, extra.sfx_handle);
        lemma_proceed_ignores_unplayed(with_rest, plain_rest, extra);
    } else if with.sfx_commands.len() > 0 {
        let with_rest = MixerModel { sfx_commands: with.sfx_commands.drop_first(), ..with };
        assert(with.sfx_commands.first() == extra);
        assert(with_rest.sfx_commands =~= plain.sfx_commands);
        assert(with_rest == plain);
    }
}

/// A turn of the drain asks the same with and without a command for a sound
/// that was never played.
proof fn lemma_mixed_ignores_unplayed(
    with: MixerModel,
    plain: MixerModel,
    extra: SfxCommand,
    event: MixerEvent,
)
    requires
        queued_behind(with, plain, extra),
        is_for_unplayed_sound(plain, extra),
        plain.consistent(),
    ensures
        with.mixed(event).1 == plain.mixed(event).1,
        queued_behind(with.mixed(event).0, plain.mixed(event).0, extra),
        is_for_unplayed_sound(plain.mixed(event).0, extra),
        plain.mixed(event).0.consistent(),
{
    lemma_mixed_stays_consistent(plain, event);
    lemma_proceed_ignores_unplayed(
        MixerModel { pending: Pending::Nothing, ..with },
        MixerModel { pending: Pending::Nothing, ..plain },
        extra,
    );
    match plain.pending {
        Pending::Effects { sfx_handle, channel } => {
            lemma_handle_is_its_index(sfx_handle, extra.sfx_handle);
        },
        _ => {},
    }
}

/// Queueing a change of volume or panning for a sound that was never played
/// changes nothing: the drain makes the same requests and ends the same way
/// as without the command, whatever the backend answers, and leaves the
/// sounds as they would have been.
pub proof fn lemma_command_for_unplayed_sound_is_no_op(
    mixer: MixerModel,
    extra: SfxCommand,
    event: MixerEvent,
    answers: Seq<MixerEvent>,
)
    requires
        mixer.consistent(),
        is_for_unplayed_sound(mixer, extra),
    ensures
        with_queued(mixer, extra).drained(event, answers).1 == mixer.drained(event, answers).1,
        with_queued(mixer, extra).drained(event, answers).2 == mixer.drained(event, answers).2,
        with_queued(mixer, extra).drained(event, answers).0.sfxs
            == mixer.drained(event, answers).0.sfxs,
{
    lemma_drain_ignores_unplayed(with_queued(mixer, extra), mixer, extra, event, answers);
}

/// A drain goes the same with and without a command for a sound that was
/// never played.
proof fn lemma_drain_ignores_unplayed(
    with: MixerModel,
    plain: MixerModel,
    extra: SfxCommand,
    event: MixerEvent,
    answers: Seq<MixerEvent>,
)
    requires
        queued_behind(with, plain, extra),
        is_for_unplayed_sound(plain, extra),
        plain.consistent(),
    ensures
        with.drained(event, answers).1 == plain.drained(event, answers).1,
        with.drained(event, answers).2 == plain.drained(event, answers).2,
        with.drained(event, answers).0.sfxs == plain.drained(event, answers).0.sfxs,
    decreases answers.len(),
{
    lemma_mixed_ignores_unplayed(with, plain, extra, event);
    if plain.mixed(event).1 is Ask && answers.len() > 0 {
        lemma_drain_ignores_unplayed(
            with.mixed(event).0,
            plain.mixed(event).0,
            extra,
            answers.first(),
            answers.drop_first(),
        );
    }
}

} // verus!
