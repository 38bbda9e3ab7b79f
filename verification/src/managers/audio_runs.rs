//! What holds of a recording manager however it is used: laws over runs of
//! operations and answers.

use vstd::prelude::*;

use crate::managers::audio::{
    answered, awaits_answer, awaits_samples, canceled, closed, closing_effects, collected, created,
    finished, mode_updated, mute_applied, mute_effects, opened, opening, opening_microphone,
    samples_taken, source_updated, start_tried, stop_begun, streaming_begun, switching, AudioAsk,
    AudioEffect, AudioModel, AudioNext, AudioOutcome, AudioStage, MicrophoneMode, Then,
};
use crate::samples::padded;
use crate::settings::{AppSettings, AudioSource, Platform};

verus! {

/// What can be done with a recording manager: an operation, or the answer that
/// one waits for.
pub enum AudioInput<S> {
    Answer(bool),
    Samples(Option<Seq<S>>),
    StartStream,
    StopStream,
    SelectSource(AudioSource),
    SelectDevice,
    SelectMode(MicrophoneMode),
    TryStart(Seq<char>),
    Stop(Seq<char>),
    Cancel,
    ApplyMute(bool),
    EnsureUnmuted,
    RemoveMute,
    EnableStreaming,
    DisableStreaming,
}

/// The input is one that the manager waits for.
pub open spec fn fits<S>(m: AudioModel<S>, input: AudioInput<S>) -> bool {
    match input {
        AudioInput::Answer(_) => awaits_answer(m.stage),
        AudioInput::Samples(_) => awaits_samples(m.stage),
        _ => m.stage is Ready,
    }
}

/// The system is unmuted, or was not muted in the first place.
pub open spec fn unmuted<S>(m: AudioModel<S>, needed: bool) -> AudioNext<S> {
    finished(
        AudioModel { muted: false, ..m },
        if needed {
            seq![AudioEffect::SetMute(false)]
        } else {
            Seq::empty()
        },
        AudioOutcome::Done,
    )
}

/// The audio is streamed no longer.
pub open spec fn streaming_ended<S>(m: AudioModel<S>) -> AudioNext<S> {
    finished(
        AudioModel { streaming: false, ..m },
        if m.has_recorder {
            seq![AudioEffect::DisableStreaming]
        } else {
            Seq::empty()
        },
        AudioOutcome::Done,
    )
}

/// The turn that an input leads to.
#[verifier::opaque]
pub open spec fn audio_next<S>(m: AudioModel<S>, input: AudioInput<S>) -> AudioNext<S> {
    match input {
        AudioInput::Answer(yes) => answered(m, yes),
        AudioInput::Samples(samples) => samples_taken(m, samples),
        AudioInput::StartStream => opening(m, Seq::empty(), Then::Rest),
        AudioInput::StopStream => finished(closed(m), closing_effects(m), AudioOutcome::Done),
        AudioInput::SelectSource(source) => source_updated(m, source),
        AudioInput::SelectDevice => switching(m),
        AudioInput::SelectMode(mode) => mode_updated(m, mode),
        AudioInput::TryStart(binding) => start_tried(m, binding),
        AudioInput::Stop(binding) => stop_begun(m, binding),
        AudioInput::Cancel => canceled(m),
        AudioInput::ApplyMute(mute) => finished(
            mute_applied(m, mute),
            mute_effects(m, mute),
            AudioOutcome::Done,
        ),
        AudioInput::EnsureUnmuted => unmuted(m, true),
        AudioInput::RemoveMute => unmuted(m, m.muted),
        AudioInput::EnableStreaming => streaming_begun(m),
        AudioInput::DisableStreaming => streaming_ended(m),
    }
}

/// Every input of a run is one that the manager waits for.
pub open spec fn all_fit<S>(m: AudioModel<S>, inputs: Seq<AudioInput<S>>) -> bool
    decreases inputs.len(),
{
    inputs.len() == 0 || (fits(m, inputs[0]) && all_fit(
        audio_next(m, inputs[0]).state,
        inputs.drop_first(),
    ))
}

/// The state that a run ends in.
pub open spec fn after<S>(m: AudioModel<S>, inputs: Seq<AudioInput<S>>) -> AudioModel<S>
    decreases inputs.len(),
{
    if inputs.len() == 0 {
        m
    } else {
        after(audio_next(m, inputs[0]).state, inputs.drop_first())
    }
}

/// The effects of a run.
pub open spec fn effects_of<S>(m: AudioModel<S>, inputs: Seq<AudioInput<S>>) -> Seq<AudioEffect>
    decreases inputs.len(),
{
    if inputs.len() == 0 {
        Seq::empty()
    } else {
        audio_next(m, inputs[0]).effects + effects_of(
            audio_next(m, inputs[0]).state,
            inputs.drop_first(),
        )
    }
}

/// The samples that the recorder hands out in a run, in order.
pub open spec fn handed_out<S>(inputs: Seq<AudioInput<S>>) -> Seq<S>
    decreases inputs.len(),
{
    if inputs.len() == 0 {
        Seq::empty()
    } else {
        (match inputs[0] {
            AudioInput::Samples(samples) => collected(samples),
            _ => Seq::empty(),
        }) + handed_out(inputs.drop_first())
    }
}

/// A recording lasts throughout a run: nobody ends it, and the recorder takes
/// it up again whenever it has to.
pub open spec fn lasting<S>(m: AudioModel<S>, inputs: Seq<AudioInput<S>>) -> bool
    decreases inputs.len(),
{
    inputs.len() == 0 || {
        &&& !(inputs[0] is Stop)
        &&& !(inputs[0] is Cancel)
        &&& !(m.stage is ResumingRecording && inputs[0] == AudioInput::<S>::Answer(false))
        &&& lasting(audio_next(m, inputs[0]).state, inputs.drop_first())
    }
}

/// What follows on opening the stream agrees with whether there is a recording.
pub open spec fn consistent<S>(m: AudioModel<S>, then: Then<Seq<char>>) -> bool {
    match then {
        Then::Record(_) => m.binding is None,
        Then::Resume { was_recording } => was_recording ==> m.binding is Some,
        _ => true,
    }
}

/// The invariant of a recording manager.
#[verifier::opaque]
pub open spec fn sound<S>(m: AudioModel<S>) -> bool {
    &&& m.open ==> m.has_recorder
    &&& m.recording ==> m.has_recorder
    &&& m.has_capture ==> m.platform.mac()
    // Muting needs an open stream on the microphone alone.
    &&& m.muted ==> m.open && (m.source is Microphone || m.stage is CollectingForSwitch)
    // Without a recording, nothing is recorded and nothing is buffered.
    &&& m.binding is None && !(m.stage is CollectingForStop) ==> !m.recording && m.buffered.len()
        == 0
    &&& match m.stage {
        AudioStage::CheckingSystemAudio(then) => m.platform.mac() && consistent(m, then),
        AudioStage::StartingCapture(then) => !m.open && consistent(m, then),
        AudioStage::ResolvingVadPath { then, .. } => !m.open && consistent(m, then),
        AudioStage::CreatingRecorder { then, .. } => !m.open && consistent(m, then),
        AudioStage::OpeningRecorder { then, .. } => !m.open && m.has_recorder && consistent(
            m,
            then,
        ),
        AudioStage::CollectingForSwitch => m.open && m.recording && m.binding is Some,
        AudioStage::CollectingForStop => m.has_recorder && m.binding is None,
        AudioStage::StartingRecording(_) => m.has_recorder && m.binding is None,
        AudioStage::ResumingRecording => m.has_recorder && m.binding is Some,
        AudioStage::ReadingMuteSetting => m.recording && m.binding is Some,
        AudioStage::EnablingStreaming => m.has_recorder,
        AudioStage::Ready => true,
    }
}

/// A new manager meets the invariant.
pub proof fn law_new_manager_is_sound<S>(settings: AppSettings, platform: Platform, silence: S)
    ensures
        sound(created(settings, platform, silence).state),
{
    reveal(sound);
}

proof fn lemma_opened<S>(m: AudioModel<S>, effects: Seq<AudioEffect>, then: Then<Seq<char>>)
    requires
        sound(m),
        m.open,
        m.stage is Ready,
        consistent(m, then),
    ensures
        sound(opened(m, effects, then).state),
{
    reveal(sound);
}

proof fn lemma_opening_microphone<S>(
    m: AudioModel<S>,
    effects: Seq<AudioEffect>,
    then: Then<Seq<char>>,
)
    requires
        sound(m),
        m.stage is Ready,
        consistent(m, then),
    ensures
        sound(opening_microphone(m, effects, then).state),
{
    reveal(sound);
    if m.open {
        lemma_opened(m, effects, then);
    }
}

proof fn lemma_opening<S>(m: AudioModel<S>, effects: Seq<AudioEffect>, then: Then<Seq<char>>)
    requires
        sound(m),
        m.stage is Ready,
        consistent(m, then),
    ensures
        sound(opening(m, effects, then).state),
{
    reveal(sound);
    lemma_opening_microphone(m, effects, then);
}

proof fn lemma_answered<S>(m: AudioModel<S>, yes: bool)
    requires
        sound(m),
        awaits_answer(m.stage),
    ensures
        sound(audio_next(m, AudioInput::Answer(yes)).state),
{
    reveal(sound);
    assert(audio_next(m, AudioInput::<S>::Answer(yes)) == answered(m, yes)) by {
        reveal(audio_next);
    }
    let ready = AudioModel { stage: AudioStage::Ready, ..m };
    match m.stage {
        AudioStage::CheckingSystemAudio(then) => {
            if m.open {
                lemma_opened(ready, Seq::empty(), then);
            }
            lemma_opening_microphone(ready, Seq::empty(), then);
        },
        AudioStage::OpeningRecorder { system_audio, then } => {
            lemma_opened(AudioModel { open: true, ..ready }, Seq::empty(), then);
        },
        _ => {},
    }
}

proof fn lemma_samples_taken<S>(m: AudioModel<S>, samples: Option<Seq<S>>)
    requires
        sound(m),
        awaits_samples(m.stage),
    ensures
        sound(audio_next(m, AudioInput::Samples(samples)).state),
{
    reveal(sound);
    assert(audio_next(m, AudioInput::<S>::Samples(samples)) == samples_taken(m, samples)) by {
        reveal(audio_next);
    }
    if m.stage is CollectingForSwitch {
        let kept = AudioModel {
            stage: AudioStage::Ready,
            recording: false,
            buffered: m.buffered + collected(samples),
            ..m
        };
        lemma_opening(closed(kept), closing_effects(kept), Then::Resume { was_recording: true });
    }
}

proof fn lemma_closed<S>(m: AudioModel<S>)
    requires
        sound(m),
        m.stage is Ready,
    ensures
        sound(audio_next(m, AudioInput::<S>::StopStream).state),
{
    reveal(sound);
    assert(audio_next(m, AudioInput::<S>::StopStream) == finished(
        closed(m),
        closing_effects(m),
        AudioOutcome::Done,
    )) by {
        reveal(audio_next);
    }
}

proof fn lemma_switching<S>(m: AudioModel<S>, source: AudioSource)
    requires
        sound(m),
        m.stage is Ready,
    ensures
        sound(switching(AudioModel { source, ..m }).state),
        sound(audio_next(m, AudioInput::<S>::SelectSource(source)).state),
{
    reveal(sound);
    assert(audio_next(m, AudioInput::<S>::SelectSource(source)) == source_updated(m, source)) by {
        reveal(audio_next);
    }
    let selected = AudioModel { source, ..m };
    if m.open && !m.recording {
        lemma_opening(
            closed(selected),
            closing_effects(selected),
            Then::Resume { was_recording: false },
        );
    }
}

proof fn lemma_device_selected<S>(m: AudioModel<S>)
    requires
        sound(m),
        m.stage is Ready,
    ensures
        sound(audio_next(m, AudioInput::<S>::SelectDevice).state),
{
    lemma_switching(m, m.source);
    assert(audio_next(m, AudioInput::<S>::SelectDevice) == switching(m)) by {
        reveal(audio_next);
    }
    assert(AudioModel { source: m.source, ..m } == m);
}

proof fn lemma_started<S>(m: AudioModel<S>)
    requires
        sound(m),
        m.stage is Ready,
    ensures
        sound(audio_next(m, AudioInput::<S>::StartStream).state),
{
    lemma_opening(m, Seq::empty(), Then::Rest);
    assert(audio_next(m, AudioInput::<S>::StartStream) == opening(m, Seq::empty(), Then::Rest)) by {
        reveal(audio_next);
    }
}

proof fn lemma_ended<S>(m: AudioModel<S>, binding: Seq<char>)
    requires
        sound(m),
        m.stage is Ready,
    ensures
        sound(audio_next(m, AudioInput::<S>::Stop(binding)).state),
        sound(audio_next(m, AudioInput::<S>::Cancel).state),
{
    reveal(sound);
    assert(audio_next(m, AudioInput::<S>::Stop(binding)) == stop_begun(m, binding)) by {
        reveal(audio_next);
    }
    assert(audio_next(m, AudioInput::<S>::Cancel) == canceled(m)) by {
        reveal(audio_next);
    }
}

proof fn lemma_mode_updated<S>(m: AudioModel<S>, mode: MicrophoneMode)
    requires
        sound(m),
        m.stage is Ready,
    ensures
        sound(audio_next(m, AudioInput::<S>::SelectMode(mode)).state),
{
    lemma_opening(m, Seq::empty(), Then::SetMode(mode));
    reveal(sound);
    assert(audio_next(m, AudioInput::<S>::SelectMode(mode)) == mode_updated(m, mode)) by {
        reveal(audio_next);
    }
}

proof fn lemma_start_tried<S>(m: AudioModel<S>, binding: Seq<char>)
    requires
        sound(m),
        m.stage is Ready,
    ensures
        sound(audio_next(m, AudioInput::<S>::TryStart(binding)).state),
{
    if m.binding is None {
        lemma_opening(m, Seq::empty(), Then::Record(binding));
    }
    reveal(sound);
    assert(audio_next(m, AudioInput::<S>::TryStart(binding)) == start_tried(m, binding)) by {
        reveal(audio_next);
    }
}

proof fn lemma_mute_and_streaming<S>(m: AudioModel<S>, mute: bool)
    requires
        sound(m),
        m.stage is Ready,
    ensures
        sound(audio_next(m, AudioInput::<S>::ApplyMute(mute)).state),
        sound(audio_next(m, AudioInput::<S>::EnsureUnmuted).state),
        sound(audio_next(m, AudioInput::<S>::RemoveMute).state),
        sound(audio_next(m, AudioInput::<S>::EnableStreaming).state),
        sound(audio_next(m, AudioInput::<S>::DisableStreaming).state),
{
    reveal(sound);
    assert(audio_next(m, AudioInput::<S>::ApplyMute(mute)) == finished(
        mute_applied(m, mute),
        mute_effects(m, mute),
        AudioOutcome::Done,
    )) by {
        reveal(audio_next);
    }
    assert(audio_next(m, AudioInput::<S>::EnsureUnmuted) == unmuted(m, true)) by {
        reveal(audio_next);
    }
    assert(audio_next(m, AudioInput::<S>::RemoveMute) == unmuted(m, m.muted)) by {
        reveal(audio_next);
    }
    assert(audio_next(m, AudioInput::<S>::EnableStreaming) == streaming_begun(m)) by {
        reveal(audio_next);
    }
    assert(audio_next(m, AudioInput::<S>::DisableStreaming) == streaming_ended(m)) by {
        reveal(audio_next);
    }
}

/// Whatever is done with a manager keeps the invariant.
pub proof fn law_inputs_keep_manager_sound<S>(m: AudioModel<S>, input: AudioInput<S>)
    requires
        sound(m),
        fits(m, input),
    ensures
        sound(audio_next(m, input).state),
{
    match input {
        AudioInput::Answer(yes) => lemma_answered(m, yes),
        AudioInput::Samples(samples) => lemma_samples_taken(m, samples),
        AudioInput::StartStream => lemma_started(m),
        AudioInput::StopStream => lemma_closed(m),
        AudioInput::SelectSource(source) => lemma_switching(m, source),
        AudioInput::SelectDevice => lemma_device_selected(m),
        AudioInput::SelectMode(mode) => lemma_mode_updated(m, mode),
        AudioInput::TryStart(binding) => lemma_start_tried(m, binding),
        AudioInput::Stop(binding) => lemma_ended(m, binding),
        AudioInput::Cancel => lemma_ended(m, Seq::empty()),
        AudioInput::ApplyMute(mute) => lemma_mute_and_streaming(m, mute),
        _ => lemma_mute_and_streaming(m, false),
    }
}

/// Whether the system is muted after the effects.
#[verifier::opaque]
pub open spec fn mute_after(before: bool, effects: Seq<AudioEffect>) -> bool
    decreases effects.len(),
{
    if effects.len() == 0 {
        before
    } else {
        match effects.last() {
            AudioEffect::SetMute(mute) => mute,
            _ => mute_after(before, effects.drop_last()),
        }
    }
}

proof fn lemma_mute_after_two(before: bool, first: Seq<AudioEffect>, second: Seq<AudioEffect>)
    ensures
        mute_after(before, first + second) == mute_after(mute_after(before, first), second),
    decreases second.len(),
{
    reveal(mute_after);
    if second.len() == 0 {
        assert(first + second =~= first);
    } else {
        assert((first + second).drop_last() =~= first + second.drop_last());
        lemma_mute_after_two(before, first, second.drop_last());
    }
}

proof fn lemma_mute_after_none(before: bool)
    ensures
        mute_after(before, Seq::empty()) == before,
{
    reveal(mute_after);
}

proof fn lemma_mute_after_one(before: bool, effects: Seq<AudioEffect>, effect: AudioEffect)
    ensures
        mute_after(before, effects.push(effect)) == match effect {
            AudioEffect::SetMute(mute) => mute,
            _ => mute_after(before, effects),
        },
        mute_after(before, seq![effect]) == match effect {
            AudioEffect::SetMute(mute) => mute,
            _ => before,
        },
{
    reveal_with_fuel(mute_after, 2);
    assert(effects.push(effect).drop_last() =~= effects);
    assert(seq![effect].drop_last() =~= Seq::<AudioEffect>::empty());
}

proof fn lemma_closing_unmutes<S>(m: AudioModel<S>)
    requires
        m.muted ==> m.open,
    ensures
        mute_after(m.muted, closing_effects(m)) == closed(m).muted,
        !closing_effects(m).contains(AudioEffect::SetMute(true)),
{
    lemma_mute_after_none(m.muted);
    if m.open {
        let none = Seq::<AudioEffect>::empty();
        let unmute = if m.muted {
            seq![AudioEffect::SetMute(false)]
        } else {
            none
        };
        let discard = if m.has_recorder && m.recording {
            seq![AudioEffect::DiscardSamples]
        } else {
            none
        };
        let close = if m.has_recorder {
            seq![AudioEffect::CloseRecorder]
        } else {
            none
        };
        let stop = if m.platform.mac() && m.has_capture {
            seq![AudioEffect::StopCapture]
        } else {
            none
        };
        assert(closing_effects(m) == unmute + discard + close + stop);
        lemma_mute_after_two(m.muted, unmute + discard + close, stop);
        lemma_mute_after_two(m.muted, unmute + discard, close);
        lemma_mute_after_two(m.muted, unmute, discard);
        lemma_mute_after_one(m.muted, none, AudioEffect::SetMute(false));
        lemma_mute_after_none(false);
        lemma_mute_after_one(false, none, AudioEffect::DiscardSamples);
        lemma_mute_after_one(false, none, AudioEffect::CloseRecorder);
        lemma_mute_after_one(false, none, AudioEffect::StopCapture);
    }
}

/// How many more answers an operation takes at most.
pub open spec fn rank(stage: AudioStage<Seq<char>>) -> nat {
    match stage {
        AudioStage::Ready => 0,
        AudioStage::CollectingForStop => 1,
        AudioStage::EnablingStreaming => 1,
        AudioStage::ReadingMuteSetting => 1,
        AudioStage::StartingRecording(_) => 1,
        AudioStage::ResumingRecording => 2,
        AudioStage::OpeningRecorder { .. } => 3,
        AudioStage::CreatingRecorder { .. } => 4,
        AudioStage::ResolvingVadPath { .. } => 5,
        AudioStage::StartingCapture(_) => 6,
        AudioStage::CheckingSystemAudio(_) => 7,
        AudioStage::CollectingForSwitch => 8,
    }
}

/// The question is the one that the stage waits for.
pub open spec fn asks_what_it_awaits<S>(next: AudioNext<S>) -> bool {
    &&& next.ask is Finished <==> next.state.stage is Ready
    &&& next.ask is CollectSamples <==> awaits_samples(next.state.stage)
}

/// The samples that are kept after an input.
pub open spec fn kept_samples<S>(m: AudioModel<S>, input: AudioInput<S>) -> Seq<S> {
    match input {
        AudioInput::Samples(samples) => if m.stage is CollectingForStop {
            Seq::empty()
        } else {
            m.buffered + collected(samples)
        },
        AudioInput::Answer(yes) => if m.stage is ResumingRecording && !yes {
            Seq::empty()
        } else {
            m.buffered
        },
        AudioInput::Stop(binding) => if m.binding == Some(binding) && !m.has_recorder {
            Seq::empty()
        } else {
            m.buffered
        },
        AudioInput::Cancel => if m.binding is Some {
            Seq::empty()
        } else {
            m.buffered
        },
        _ => m.buffered,
    }
}

/// The binding that records after an input.
pub open spec fn binding_after<S>(m: AudioModel<S>, input: AudioInput<S>) -> Option<Seq<char>> {
    match input {
        AudioInput::Answer(yes) => match m.stage {
            AudioStage::StartingRecording(binding) => if yes {
                Some(binding)
            } else {
                m.binding
            },
            _ => m.binding,
        },
        AudioInput::Stop(binding) => if m.binding == Some(binding) {
            None
        } else {
            m.binding
        },
        AudioInput::Cancel => None,
        _ => m.binding,
    }
}

/// Whether the audio is streamed after an input.
pub open spec fn streaming_after<S>(m: AudioModel<S>, input: AudioInput<S>) -> bool {
    match input {
        AudioInput::DisableStreaming => false,
        AudioInput::Answer(yes) => m.streaming || (m.stage is EnablingStreaming && yes),
        _ => m.streaming,
    }
}

/// The system is muted only while the microphone records alone.
pub open spec fn mutes_rightly<S>(m: AudioModel<S>, effects: Seq<AudioEffect>) -> bool {
    effects.contains(AudioEffect::SetMute(true)) ==> m.source is Microphone && m.open
}

/// What holds of the turn that an input leads to.
pub open spec fn orderly<S>(m: AudioModel<S>, input: AudioInput<S>, next: AudioNext<S>) -> bool {
    &&& next.state.muted == mute_after(m.muted, next.effects)
    &&& asks_what_it_awaits(next)
    &&& next.state.platform == m.platform
    &&& next.state.silence == m.silence
    &&& next.state.buffered == kept_samples(m, input)
    &&& next.state.binding == binding_after(m, input)
    &&& next.state.streaming == streaming_after(m, input)
    &&& mutes_rightly(m, next.effects)
    &&& input is Answer || input is Samples ==> rank(next.state.stage) < rank(m.stage)
}

/// Opening the stream, after `effects`, changes neither the recording nor
/// whether the system is muted.
spec fn opens_orderly<S>(
    m: AudioModel<S>,
    effects: Seq<AudioEffect>,
    next: AudioNext<S>,
    limit: nat,
) -> bool {
    &&& next.state.muted == m.muted
    &&& forall|w: bool| #[trigger] mute_after(w, next.effects) == mute_after(w, effects)
    &&& asks_what_it_awaits(next)
    &&& next.state.platform == m.platform
    &&& next.state.silence == m.silence
    &&& next.state.buffered == m.buffered
    &&& next.state.binding == m.binding
    &&& next.state.streaming == m.streaming
    &&& next.effects.contains(AudioEffect::SetMute(true)) ==> effects.contains(
        AudioEffect::SetMute(true),
    )
    &&& rank(next.state.stage) <= limit
}

proof fn lemma_opened_orderly<S>(
    m: AudioModel<S>,
    effects: Seq<AudioEffect>,
    then: Then<Seq<char>>,
)
    ensures
        opens_orderly(m, effects, opened(m, effects, then), 2),
{
    assert forall|w: bool| #[trigger]
        mute_after(w, opened(m, effects, then).effects) == mute_after(w, effects) by {
        lemma_mute_after_one(w, effects, AudioEffect::ReconnectStreaming);
    }
    let all = opened(m, effects, then).effects;
    if all.contains(AudioEffect::SetMute(true)) {
        let i = choose|i: int| 0 <= i < all.len() && all[i] == AudioEffect::SetMute(true);
        assert(effects[i] == AudioEffect::SetMute(true));
    }
}

proof fn lemma_opening_microphone_orderly<S>(
    m: AudioModel<S>,
    effects: Seq<AudioEffect>,
    then: Then<Seq<char>>,
)
    requires
        m.muted ==> m.open,
    ensures
        opens_orderly(m, effects, opening_microphone(m, effects, then), 5),
{
    lemma_opened_orderly(m, effects, then);
}

proof fn lemma_opening_orderly<S>(
    m: AudioModel<S>,
    effects: Seq<AudioEffect>,
    then: Then<Seq<char>>,
)
    requires
        m.muted ==> m.open,
    ensures
        opens_orderly(m, effects, opening(m, effects, then), 7),
{
    lemma_opening_microphone_orderly(m, effects, then);
}

proof fn lemma_answer_orderly<S>(m: AudioModel<S>, yes: bool)
    requires
        sound(m),
        awaits_answer(m.stage),
    ensures
        orderly(m, AudioInput::Answer(yes), audio_next(m, AudioInput::Answer(yes))),
{
    lemma_mute_after_none(m.muted);
    reveal(sound);
    assert(audio_next(m, AudioInput::<S>::Answer(yes)) == answered(m, yes)) by {
        reveal(audio_next);
    }
    let ready = AudioModel { stage: AudioStage::Ready, ..m };
    let none = Seq::<AudioEffect>::empty();
    lemma_mute_after_one(m.muted, none, AudioEffect::SetMute(true));
    lemma_mute_after_one(m.muted, none, AudioEffect::SetMute(false));
    match m.stage {
        AudioStage::CheckingSystemAudio(then) => {
            lemma_opened_orderly(ready, none, then);
            lemma_opening_microphone_orderly(ready, none, then);
            let next = answered(m, yes);
            assert(!yes || m.open ==> mute_after(m.muted, next.effects) == mute_after(
                m.muted,
                none,
            ));
        },
        AudioStage::OpeningRecorder { system_audio, then } => {
            lemma_opened_orderly(AudioModel { open: true, ..ready }, none, then);
            let next = answered(m, yes);
            assert(yes ==> mute_after(m.muted, next.effects) == mute_after(m.muted, none));
        },
        _ => {},
    }
}

proof fn lemma_samples_orderly<S>(m: AudioModel<S>, samples: Option<Seq<S>>)
    requires
        sound(m),
        awaits_samples(m.stage),
    ensures
        orderly(m, AudioInput::Samples(samples), audio_next(m, AudioInput::Samples(samples))),
{
    lemma_mute_after_none(m.muted);
    reveal(sound);
    assert(audio_next(m, AudioInput::<S>::Samples(samples)) == samples_taken(m, samples)) by {
        reveal(audio_next);
    }
    let ready = AudioModel { stage: AudioStage::Ready, ..m };
    if m.stage is CollectingForSwitch {
        let kept = AudioModel {
            recording: false,
            buffered: m.buffered + collected(samples),
            ..ready
        };
        lemma_closing_unmutes(kept);
        lemma_opening_orderly(
            closed(kept),
            closing_effects(kept),
            Then::Resume { was_recording: true },
        );
        let next = samples_taken(m, samples);
        assert(mute_after(m.muted, next.effects) == mute_after(m.muted, closing_effects(kept)));
    } else {
        lemma_closing_unmutes(
            AudioModel { buffered: Seq::empty(), recording: false, ..ready },
        );
    }
}

proof fn lemma_switching_orderly<S>(m: AudioModel<S>, source: AudioSource)
    requires
        sound(m),
        m.stage is Ready,
    ensures
        orderly(
            m,
            AudioInput::<S>::SelectSource(source),
            switching(AudioModel { source, ..m }),
        ),
{
    lemma_mute_after_none(m.muted);
    reveal(sound);
    let selected = AudioModel { source, ..m };
    if m.open && !m.recording {
        lemma_closing_unmutes(selected);
        lemma_opening_orderly(
            closed(selected),
            closing_effects(selected),
            Then::Resume { was_recording: false },
        );
        let next = switching(selected);
        assert(mute_after(m.muted, next.effects) == mute_after(
            m.muted,
            closing_effects(selected),
        ));
    }
}

proof fn lemma_selection_orderly<S>(m: AudioModel<S>, source: AudioSource)
    requires
        sound(m),
        m.stage is Ready,
    ensures
        orderly(
            m,
            AudioInput::<S>::SelectSource(source),
            audio_next(m, AudioInput::<S>::SelectSource(source)),
        ),
        orderly(
            m,
            AudioInput::<S>::SelectDevice,
            audio_next(m, AudioInput::<S>::SelectDevice),
        ),
{
    lemma_mute_after_none(m.muted);
    assert(audio_next(m, AudioInput::<S>::SelectSource(source)) == source_updated(m, source)) by {
        reveal(audio_next);
    }
    assert(audio_next(m, AudioInput::<S>::SelectDevice) == switching(m)) by {
        reveal(audio_next);
    }
    lemma_switching_orderly(m, source);
    lemma_switching_orderly(m, m.source);
    assert(AudioModel { source: m.source, ..m } == m);
}

proof fn lemma_stream_orderly<S>(m: AudioModel<S>, mode: MicrophoneMode)
    requires
        sound(m),
        m.stage is Ready,
    ensures
        orderly(m, AudioInput::<S>::StartStream, audio_next(m, AudioInput::<S>::StartStream)),
        orderly(m, AudioInput::<S>::StopStream, audio_next(m, AudioInput::<S>::StopStream)),
        orderly(
            m,
            AudioInput::<S>::SelectMode(mode),
            audio_next(m, AudioInput::<S>::SelectMode(mode)),
        ),
{
    lemma_mute_after_none(m.muted);
    reveal(sound);
    assert(audio_next(m, AudioInput::<S>::StartStream) == opening(m, Seq::empty(), Then::Rest)) by {
        reveal(audio_next);
    }
    assert(audio_next(m, AudioInput::<S>::StopStream) == finished(
        closed(m),
        closing_effects(m),
        AudioOutcome::Done,
    )) by {
        reveal(audio_next);
    }
    assert(audio_next(m, AudioInput::<S>::SelectMode(mode)) == mode_updated(m, mode)) by {
        reveal(audio_next);
    }
    let none = Seq::<AudioEffect>::empty();
    lemma_closing_unmutes(m);
    lemma_opening_orderly(m, none, Then::Rest);
    lemma_opening_orderly(m, none, Then::SetMode(mode));
    assert(mute_after(m.muted, opening(m, none, Then::Rest).effects) == mute_after(m.muted, none));
    assert(mute_after(m.muted, opening(m, none, Then::SetMode(mode)).effects) == mute_after(
        m.muted,
        none,
    ));
}

proof fn lemma_recording_orderly<S>(m: AudioModel<S>, binding: Seq<char>)
    requires
        sound(m),
        m.stage is Ready,
    ensures
        orderly(
            m,
            AudioInput::<S>::TryStart(binding),
            audio_next(m, AudioInput::<S>::TryStart(binding)),
        ),
        orderly(m, AudioInput::<S>::Stop(binding), audio_next(m, AudioInput::<S>::Stop(binding))),
{
    lemma_mute_after_none(m.muted);
    reveal(sound);
    assert(audio_next(m, AudioInput::<S>::TryStart(binding)) == start_tried(m, binding)) by {
        reveal(audio_next);
    }
    assert(audio_next(m, AudioInput::<S>::Stop(binding)) == stop_begun(m, binding)) by {
        reveal(audio_next);
    }
    let none = Seq::<AudioEffect>::empty();
    lemma_opening_orderly(m, none, Then::Record(binding));
    assert(mute_after(m.muted, opening(m, none, Then::Record(binding)).effects) == mute_after(
        m.muted,
        none,
    ));
    lemma_closing_unmutes(
        AudioModel { binding: None, recording: false, buffered: Seq::empty(), ..m },
    );
}

proof fn lemma_cancel_orderly<S>(m: AudioModel<S>)
    requires
        sound(m),
        m.stage is Ready,
    ensures
        orderly(m, AudioInput::<S>::Cancel, audio_next(m, AudioInput::<S>::Cancel)),
{
    lemma_mute_after_none(m.muted);
    reveal(sound);
    assert(audio_next(m, AudioInput::<S>::Cancel) == canceled(m)) by {
        reveal(audio_next);
    }
    let idle = AudioModel { binding: None, recording: false, buffered: Seq::empty(), ..m };
    let discard = if m.has_recorder {
        seq![AudioEffect::DiscardSamples]
    } else {
        Seq::empty()
    };
    lemma_closing_unmutes(idle);
    lemma_mute_after_one(m.muted, Seq::empty(), AudioEffect::DiscardSamples);
    lemma_mute_after_two(m.muted, discard, closing_effects(idle));
}

proof fn lemma_mute_orderly<S>(m: AudioModel<S>, mute: bool)
    requires
        m.stage is Ready,
    ensures
        orderly(
            m,
            AudioInput::<S>::ApplyMute(mute),
            audio_next(m, AudioInput::<S>::ApplyMute(mute)),
        ),
{
    lemma_mute_after_none(m.muted);
    assert(audio_next(m, AudioInput::<S>::ApplyMute(mute)) == finished(
        mute_applied(m, mute),
        mute_effects(m, mute),
        AudioOutcome::Done,
    )) by {
        reveal(audio_next);
    }
    lemma_mute_after_one(m.muted, Seq::empty(), AudioEffect::SetMute(true));
}

proof fn lemma_unmute_orderly<S>(m: AudioModel<S>)
    requires
        m.stage is Ready,
    ensures
        orderly(m, AudioInput::<S>::EnsureUnmuted, audio_next(m, AudioInput::<S>::EnsureUnmuted)),
        orderly(m, AudioInput::<S>::RemoveMute, audio_next(m, AudioInput::<S>::RemoveMute)),
{
    lemma_mute_after_none(m.muted);
    assert(audio_next(m, AudioInput::<S>::EnsureUnmuted) == unmuted(m, true)) by {
        reveal(audio_next);
    }
    assert(audio_next(m, AudioInput::<S>::RemoveMute) == unmuted(m, m.muted)) by {
        reveal(audio_next);
    }
    lemma_mute_after_one(m.muted, Seq::empty(), AudioEffect::SetMute(false));
}

proof fn lemma_streaming_orderly<S>(m: AudioModel<S>)
    requires
        m.stage is Ready,
    ensures
        orderly(
            m,
            AudioInput::<S>::EnableStreaming,
            audio_next(m, AudioInput::<S>::EnableStreaming),
        ),
        orderly(
            m,
            AudioInput::<S>::DisableStreaming,
            audio_next(m, AudioInput::<S>::DisableStreaming),
        ),
{
    lemma_mute_after_none(m.muted);
    assert(audio_next(m, AudioInput::<S>::EnableStreaming) == streaming_begun(m)) by {
        reveal(audio_next);
    }
    assert(audio_next(m, AudioInput::<S>::DisableStreaming) == streaming_ended(m)) by {
        reveal(audio_next);
    }
    lemma_mute_after_one(m.muted, Seq::empty(), AudioEffect::DisableStreaming);
}

/// Every turn is orderly: the manager knows whether it has left the system
/// muted, and mutes it only for the microphone alone; it asks what it waits
/// for; each answer brings the operation nearer to its end; and the samples and
/// the binding of a recording, and whether it is streamed, change as
/// [`kept_samples`], [`binding_after`] and [`streaming_after`] say, and in no
/// other way.
pub proof fn law_turns_are_orderly<S>(m: AudioModel<S>, input: AudioInput<S>)
    requires
        sound(m),
        fits(m, input),
    ensures
        orderly(m, input, audio_next(m, input)),
{
    match input {
        AudioInput::Answer(yes) => lemma_answer_orderly(m, yes),
        AudioInput::Samples(samples) => lemma_samples_orderly(m, samples),
        AudioInput::StartStream => lemma_stream_orderly(m, m.mode),
        AudioInput::StopStream => lemma_stream_orderly(m, m.mode),
        AudioInput::SelectSource(source) => lemma_selection_orderly(m, source),
        AudioInput::SelectDevice => lemma_selection_orderly(m, m.source),
        AudioInput::SelectMode(mode) => lemma_stream_orderly(m, mode),
        AudioInput::TryStart(binding) => lemma_recording_orderly(m, binding),
        AudioInput::Stop(binding) => lemma_recording_orderly(m, binding),
        AudioInput::Cancel => lemma_cancel_orderly(m),
        AudioInput::ApplyMute(mute) => lemma_mute_orderly(m, mute),
        AudioInput::EnsureUnmuted => lemma_unmute_orderly(m),
        AudioInput::RemoveMute => lemma_unmute_orderly(m),
        AudioInput::EnableStreaming => lemma_streaming_orderly(m),
        AudioInput::DisableStreaming => lemma_streaming_orderly(m),
    }
}

/// The invariant holds throughout a run.
pub proof fn law_runs_keep_manager_sound<S>(m: AudioModel<S>, inputs: Seq<AudioInput<S>>)
    requires
        sound(m),
        all_fit(m, inputs),
    ensures
        sound(after(m, inputs)),
    decreases inputs.len(),
{
    if inputs.len() > 0 {
        law_inputs_keep_manager_sound(m, inputs[0]);
        law_runs_keep_manager_sound(audio_next(m, inputs[0]).state, inputs.drop_first());
    }
}

/// A mute never outlives its stream: however a manager was used, once its
/// stream is closed the last thing it did to a muted system was to unmute it.
pub proof fn law_mute_does_not_outlive_stream<S>(m: AudioModel<S>, inputs: Seq<AudioInput<S>>)
    requires
        sound(m),
        all_fit(m, inputs),
    ensures
        after(m, inputs).muted == mute_after(m.muted, effects_of(m, inputs)),
        !after(m, inputs).open ==> !mute_after(m.muted, effects_of(m, inputs)),
    decreases inputs.len(),
{
    if inputs.len() > 0 {
        let next = audio_next(m, inputs[0]);
        law_inputs_keep_manager_sound(m, inputs[0]);
        law_turns_are_orderly(m, inputs[0]);
        law_mute_does_not_outlive_stream(next.state, inputs.drop_first());
        lemma_mute_after_two(
            m.muted,
            next.effects,
            effects_of(next.state, inputs.drop_first()),
        );
    } else {
        lemma_mute_after_none(m.muted);
        reveal(sound);
    }
}

/// A recording keeps its samples: however often the source and the device change
/// while it lasts, everything that the recorder hands out is kept, in order.
pub proof fn law_lasting_recording_keeps_samples<S>(
    m: AudioModel<S>,
    inputs: Seq<AudioInput<S>>,
    binding: Seq<char>,
)
    requires
        sound(m),
        m.binding == Some(binding),
        all_fit(m, inputs),
        lasting(m, inputs),
    ensures
        after(m, inputs).binding == Some(binding),
        after(m, inputs).silence == m.silence,
        after(m, inputs).buffered == m.buffered + handed_out(inputs),
    decreases inputs.len(),
{
    if inputs.len() > 0 {
        let next = audio_next(m, inputs[0]).state;
        law_inputs_keep_manager_sound(m, inputs[0]);
        law_turns_are_orderly(m, inputs[0]);
        reveal(sound);
        law_lasting_recording_keeps_samples(next, inputs.drop_first(), binding);
    }
}

/// Stopping the recording hands out everything that was recorded: what was kept
/// when the stream changed, then what the recorder has, filled up if it is very
/// short. Nothing is kept, nobody records, and on demand the stream is closed
/// and the system not muted.
pub proof fn law_stopping_hands_out_samples<S>(
    m: AudioModel<S>,
    binding: Seq<char>,
    samples: Option<Seq<S>>,
)
    requires
        sound(m),
        m.stage is Ready,
        m.binding == Some(binding),
        m.has_recorder,
    ensures
        ({
            let asked = stop_begun(m, binding);
            let last = samples_taken(asked.state, samples);
            &&& asked.ask == AudioAsk::<Seq<S>>::CollectSamples
            &&& last.ask == AudioAsk::Finished(
                AudioOutcome::Samples(
                    Some(padded(m.buffered + collected(samples), m.silence)),
                ),
            )
            &&& last.state.binding is None
            &&& !last.state.recording
            &&& last.state.buffered.len() == 0
            &&& m.mode is OnDemand ==> !last.state.open && !last.state.muted
        }),
{
    reveal(sound);
}

/// A recording that lasts through a run and is stopped then hands out all that
/// the recorder handed out in the run, and in the end, in order.
pub proof fn law_whole_recording_is_handed_out<S>(
    m: AudioModel<S>,
    inputs: Seq<AudioInput<S>>,
    binding: Seq<char>,
    samples: Option<Seq<S>>,
)
    requires
        sound(m),
        m.binding == Some(binding),
        m.buffered.len() == 0,
        all_fit(m, inputs),
        lasting(m, inputs),
        after(m, inputs).stage is Ready,
        after(m, inputs).has_recorder,
    ensures
        samples_taken(stop_begun(after(m, inputs), binding).state, samples).ask
            == AudioAsk::Finished(
            AudioOutcome::Samples(
                Some(padded(handed_out(inputs) + collected(samples), m.silence)),
            ),
        ),
{
    law_runs_keep_manager_sound(m, inputs);
    law_lasting_recording_keeps_samples(m, inputs, binding);
    law_stopping_hands_out_samples(after(m, inputs), binding, samples);
    assert(m.buffered + handed_out(inputs) =~= handed_out(inputs));
}

/// Whoever follows the stream keeps following it: a stream that is opened again
/// under a recording, or without one, is connected anew.
pub proof fn law_reopened_stream_is_reconnected<S>(
    m: AudioModel<S>,
    system_audio: bool,
    was_recording: bool,
)
    requires
        sound(m),
        m.streaming,
        m.stage == (AudioStage::OpeningRecorder {
            system_audio,
            then: Then::<Seq<char>>::Resume { was_recording },
        }),
    ensures
        answered(m, true).effects == seq![AudioEffect::ReconnectStreaming],
        answered(m, true).state.streaming,
{
    reveal(sound);
}

/// Cancelling throws the samples away and leaves nothing to stop; on demand the
/// stream is closed and the system not muted.
pub proof fn law_cancelling_discards_recording<S>(m: AudioModel<S>, binding: Seq<char>)
    requires
        sound(m),
        m.stage is Ready,
    ensures
        ({
            let idle = canceled(m).state;
            &&& idle.binding is None
            &&& !idle.recording
            &&& idle.buffered.len() == 0
            &&& m.binding is Some && m.has_recorder ==> canceled(m).effects[0]
                == AudioEffect::DiscardSamples
            &&& m.binding is Some && m.mode is OnDemand ==> !idle.open && !idle.muted
            &&& stop_begun(idle, binding).ask == AudioAsk::Finished(
                AudioOutcome::<Seq<S>>::Samples(None),
            )
        }),
{
    reveal(sound);
}

/// There is at most one recording at a time: while a binding records, no other
/// starts to, and none but it can stop the recording.
pub proof fn law_one_recording_at_a_time<S>(
    m: AudioModel<S>,
    active: Seq<char>,
    other: Seq<char>,
)
    requires
        m.stage is Ready,
        m.binding == Some(active),
    ensures
        start_tried(m, other) == finished(m, Seq::empty(), AudioOutcome::RecordingStarted(false)),
        other != active ==> stop_begun(m, other) == finished(
            m,
            Seq::empty(),
            AudioOutcome::Samples(None),
        ),
{
}

/// The system audio and a mute exclude each other: when the stream is opened on
/// the system audio, the system is unmuted before the capture starts.
pub proof fn law_system_audio_is_captured_unmuted<S>(m: AudioModel<S>, input: AudioInput<S>)
    requires
        sound(m),
        fits(m, input),
    ensures
        audio_next(m, input).ask == AudioAsk::<Seq<S>>::StartCapture ==> {
            &&& audio_next(m, input).effects == seq![AudioEffect::SetMute(false)]
            &&& !audio_next(m, input).state.muted
        },
        m.stage is Ready && !(m.source is Microphone) ==> !m.muted,
{
    reveal(sound);
    reveal(audio_next);
}

} // verus!
