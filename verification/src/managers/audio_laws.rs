//! What each operation of a recording manager comes to, once all its questions
//! are answered.

use vstd::prelude::*;

use crate::managers::audio::{
    answered, audio_error_prefix, canceled, closed, closing_effects, created, mode_updated,
    mute_applied, mute_effects, opened, opening, samples_taken, source_updated, start_tried,
    stop_begun, streaming_begun, switching, AudioAsk, AudioEffect, AudioError, AudioModel,
    AudioNext, AudioOutcome, AudioStage, MicrophoneMode, Then,
};
use crate::samples::padded;
use crate::settings::{AppSettings, AudioSource};

verus! {

/// How the questions of an operation are answered, as far as they are asked.
pub struct AudioAnswers<S> {
    /// The system audio can be captured.
    pub available: bool,
    /// The capture of the system audio has started.
    pub capture: bool,
    /// There is a voice activity model.
    pub vad_path: bool,
    /// The recorder was created.
    pub created: bool,
    /// The recorder was opened.
    pub opened: bool,
    /// The recorder has started.
    pub started: bool,
    /// The system is to be muted during recordings.
    pub mute: bool,
    /// The recorder streams its audio.
    pub streams: bool,
    /// The samples of the recorder.
    pub samples: Option<Seq<S>>,
}

/// The turn that follows the answer to what a manager waits for.
#[verifier::opaque]
pub open spec fn after_answer<S>(m: AudioModel<S>, a: AudioAnswers<S>) -> AudioNext<S> {
    match m.stage {
        AudioStage::CollectingForSwitch | AudioStage::CollectingForStop => samples_taken(
            m,
            a.samples,
        ),
        AudioStage::CheckingSystemAudio(_) => answered(m, a.available),
        AudioStage::StartingCapture(_) => answered(m, a.capture),
        AudioStage::ResolvingVadPath { .. } => answered(m, a.vad_path),
        AudioStage::CreatingRecorder { .. } => answered(m, a.created),
        AudioStage::OpeningRecorder { .. } => answered(m, a.opened),
        AudioStage::StartingRecording(_) | AudioStage::ResumingRecording => answered(m, a.started),
        AudioStage::ReadingMuteSetting => answered(m, a.mute),
        _ => answered(m, a.streams),
    }
}

/// The end of an operation that waits, with all its effects from there on;
/// `most` bounds how many further questions are answered.
#[verifier::opaque]
pub open spec fn rest_of<S>(m: AudioModel<S>, a: AudioAnswers<S>, most: nat) -> AudioNext<S>
    decreases most,
{
    let next = after_answer(m, a);
    if next.state.stage is Ready || most == 0 {
        next
    } else {
        let end = rest_of(next.state, a, (most - 1) as nat);
        AudioNext { effects: next.effects + end.effects, ..end }
    }
}

/// The end of an operation that begins with the given turn, with all its
/// effects. No operation asks more than nine questions.
pub open spec fn whole<S>(first: AudioNext<S>, a: AudioAnswers<S>) -> AudioNext<S> {
    if first.state.stage is Ready {
        first
    } else {
        let end = rest_of(first.state, a, 9);
        AudioNext { effects: first.effects + end.effects, ..end }
    }
}

/// An operation that has ended.
pub open spec fn ended<S>(
    m: AudioModel<S>,
    effects: Seq<AudioEffect>,
    outcome: AudioOutcome<Seq<S>>,
) -> AudioNext<S> {
    AudioNext {
        state: AudioModel { stage: AudioStage::Ready, ..m },
        effects,
        ask: AudioAsk::Finished(outcome),
    }
}

/// Some effects, if they are called for.
pub open spec fn effect_if(condition: bool, effect: AudioEffect) -> Seq<AudioEffect> {
    if condition {
        seq![effect]
    } else {
        Seq::empty()
    }
}

/// What an open stream leads to: nothing more; the new mode; a recording of the
/// binding, if the recorder starts; or the recording that goes on, if the
/// recorder starts. A recording that goes on has its followers connected and,
/// where that is wanted and the microphone records alone, the system muted; one
/// that cannot go on loses what it had.
#[verifier::opaque]
pub open spec fn with_stream<S>(
    m: AudioModel<S>,
    then: Then<Seq<char>>,
    a: AudioAnswers<S>,
) -> AudioNext<S> {
    match then {
        Then::Rest => ended(m, Seq::empty(), AudioOutcome::Done),
        Then::SetMode(mode) => ended(
            AudioModel { mode, ..m },
            Seq::empty(),
            AudioOutcome::Done,
        ),
        Then::Record(binding) => if m.has_recorder && a.started {
            ended(
                AudioModel { recording: true, binding: Some(binding), ..m },
                Seq::empty(),
                AudioOutcome::RecordingStarted(true),
            )
        } else {
            ended(m, Seq::empty(), AudioOutcome::RecordingStarted(false))
        },
        Then::Resume { was_recording } => {
            let connected = effect_if(
                m.streaming && m.has_recorder,
                AudioEffect::ReconnectStreaming,
            );
            let mute = a.mute && m.source is Microphone && m.open;
            if !was_recording {
                ended(m, connected, AudioOutcome::Done)
            } else if m.has_recorder && !a.started {
                ended(
                    AudioModel { buffered: Seq::empty(), ..m },
                    connected,
                    AudioOutcome::Failed(AudioError::ResumeRecording),
                )
            } else {
                ended(
                    AudioModel { recording: true, muted: m.muted || mute, ..m },
                    connected + effect_if(mute, AudioEffect::SetMute(true)),
                    AudioOutcome::Done,
                )
            }
        },
    }
}

/// With effects before it.
pub open spec fn preceded<S>(effects: Seq<AudioEffect>, next: AudioNext<S>) -> AudioNext<S> {
    AudioNext { effects: effects + next.effects, ..next }
}

proof fn lemma_step<S>(m: AudioModel<S>, a: AudioAnswers<S>, most: nat)
    requires
        most >= 1,
    ensures
        ({
            let next = after_answer(m, a);
            rest_of(m, a, most) == if next.state.stage is Ready {
                next
            } else {
                preceded(next.effects, rest_of(next.state, a, (most - 1) as nat))
            }
        }),
{
    reveal_with_fuel(rest_of, 1);
}

proof fn lemma_last_step<S>(m: AudioModel<S>, a: AudioAnswers<S>, most: nat)
    requires
        after_answer(m, a).state.stage is Ready,
    ensures
        rest_of(m, a, most) == after_answer(m, a),
{
    reveal_with_fuel(rest_of, 1);
}

proof fn lemma_nothing_before<S>(next: AudioNext<S>)
    ensures
        preceded(Seq::empty(), next) == next,
{
    assert(Seq::<AudioEffect>::empty() + next.effects =~= next.effects);
}

/// The end of an operation that begins with `first` comes after so many further
/// answers, and is `end`.
spec fn leads_to<S>(
    first: AudioNext<S>,
    a: AudioAnswers<S>,
    most: nat,
    end: AudioNext<S>,
) -> bool {
    if first.state.stage is Ready {
        first == end
    } else {
        preceded(first.effects, rest_of(first.state, a, most)) == end
    }
}

/// The effects by which followers are connected to a stream.
spec fn connected<S>(m: AudioModel<S>) -> Seq<AudioEffect> {
    effect_if(m.streaming && m.has_recorder, AudioEffect::ReconnectStreaming)
}

proof fn lemma_mute_setting_read<S>(m: AudioModel<S>, a: AudioAnswers<S>, most: nat)
    requires
        m.stage is ReadingMuteSetting,
    ensures
        ({
            let mute = a.mute && m.source is Microphone && m.open;
            rest_of(m, a, most) == ended(
                AudioModel { muted: m.muted || mute, ..m },
                effect_if(mute, AudioEffect::SetMute(true)),
                AudioOutcome::Done,
            )
        }),
{
    assert(after_answer(m, a) == answered(m, a.mute)) by {
        reveal(after_answer);
    }
    lemma_last_step(m, a, most);
}

proof fn lemma_resuming<S>(m: AudioModel<S>, a: AudioAnswers<S>, most: nat)
    requires
        m.stage is ResumingRecording,
        most >= 1,
    ensures
        ({
            let mute = a.mute && m.source is Microphone && m.open;
            rest_of(m, a, most) == if a.started {
                ended(
                    AudioModel { recording: true, muted: m.muted || mute, ..m },
                    effect_if(mute, AudioEffect::SetMute(true)),
                    AudioOutcome::Done,
                )
            } else {
                ended(
                    AudioModel { buffered: Seq::empty(), ..m },
                    Seq::empty(),
                    AudioOutcome::Failed(AudioError::ResumeRecording),
                )
            }
        }),
{
    let next = after_answer(m, a);
    assert(next == answered(m, a.started)) by {
        reveal(after_answer);
    }
    lemma_step(m, a, most);
    if a.started {
        lemma_mute_setting_read(next.state, a, (most - 1) as nat);
        lemma_nothing_before(rest_of(next.state, a, (most - 1) as nat));
    }
}

proof fn lemma_resumed<S>(
    m: AudioModel<S>,
    effects: Seq<AudioEffect>,
    was_recording: bool,
    a: AudioAnswers<S>,
    most: nat,
)
    requires
        m.stage is Ready,
        most >= 1,
    ensures
        leads_to(
            opened(m, effects, Then::Resume { was_recording }),
            a,
            most,
            preceded(effects, with_stream(m, Then::Resume { was_recording }, a)),
        ),
{
    let then = Then::<Seq<char>>::Resume { was_recording };
    let first = opened(m, effects, then);
    let end = with_stream(m, then, a);
    let mute = a.mute && m.source is Microphone && m.open;
    assert(first.effects =~= effects + connected(m));
    assert(end == if !was_recording {
        ended(m, connected(m), AudioOutcome::Done)
    } else if m.has_recorder && !a.started {
        ended(
            AudioModel { buffered: Seq::empty(), ..m },
            connected(m),
            AudioOutcome::Failed(AudioError::ResumeRecording),
        )
    } else {
        ended(
            AudioModel { recording: true, muted: m.muted || mute, ..m },
            connected(m) + effect_if(mute, AudioEffect::SetMute(true)),
            AudioOutcome::Done,
        )
    }) by {
        reveal(with_stream);
    }
    if was_recording {
        if m.has_recorder {
            lemma_resuming(first.state, a, most);
        } else {
            lemma_mute_setting_read(first.state, a, most);
        }
        let last = rest_of(first.state, a, most);
        assert(first.effects + last.effects =~= effects + end.effects);
    }
}

proof fn lemma_with_stream<S>(
    m: AudioModel<S>,
    effects: Seq<AudioEffect>,
    then: Then<Seq<char>>,
    a: AudioAnswers<S>,
    most: nat,
)
    requires
        m.stage is Ready,
        most >= 1,
    ensures
        leads_to(opened(m, effects, then), a, most, preceded(effects, with_stream(m, then, a))),
{
    let first = opened(m, effects, then);
    let end = with_stream(m, then, a);
    match then {
        Then::Resume { was_recording } => lemma_resumed(m, effects, was_recording, a, most),
        _ => {
            reveal(with_stream);
            assert(end.effects =~= Seq::empty());
            assert(effects + end.effects =~= effects);
            if !(first.state.stage is Ready) {
                reveal(after_answer);
                lemma_last_step(first.state, a, most);
                assert(first.effects + Seq::empty() =~= effects);
            }
        },
    }
}

/// The stream could not be opened: a recording has not started, or the operation
/// has failed.
pub open spec fn without_stream<S>(
    m: AudioModel<S>,
    then: Then<Seq<char>>,
    error: AudioError,
) -> AudioNext<S> {
    match then {
        Then::Record(_) => ended(m, Seq::empty(), AudioOutcome::RecordingStarted(false)),
        _ => ended(m, Seq::empty(), AudioOutcome::Failed(error)),
    }
}

/// What the opening of the recorder leads to.
#[verifier::opaque]
pub open spec fn recorder_to_open<S>(
    m: AudioModel<S>,
    system_audio: bool,
    then: Then<Seq<char>>,
    a: AudioAnswers<S>,
) -> AudioNext<S> {
    if a.opened {
        with_stream(AudioModel { open: true, ..m }, then, a)
    } else if system_audio {
        without_stream(m, then, AudioError::OpenSystemAudio)
    } else {
        without_stream(m, then, AudioError::OpenRecorder)
    }
}

proof fn lemma_recorder_to_open<S>(
    m: AudioModel<S>,
    system_audio: bool,
    then: Then<Seq<char>>,
    a: AudioAnswers<S>,
    most: nat,
)
    requires
        m.stage == (AudioStage::OpeningRecorder { system_audio, then }),
        most >= 2,
    ensures
        rest_of(m, a, most) == recorder_to_open(
            AudioModel { stage: AudioStage::Ready, ..m },
            system_audio,
            then,
            a,
        ),
{
    reveal(recorder_to_open);
    let idle = AudioModel { stage: AudioStage::Ready, ..m };
    let up = AudioModel { open: true, ..idle };
    lemma_step(m, a, most);
    assert(after_answer(m, a) == answered(m, a.opened)) by {
        reveal(after_answer);
    }
    if a.opened {
        assert(answered(m, true) == opened(up, Seq::empty(), then));
        lemma_with_stream(up, Seq::empty(), then, a, (most - 1) as nat);
        lemma_nothing_before(with_stream(up, then, a));
    }
}

/// What a voice activity model that is there, or not, leads to: the recorder is
/// created, unless there is one, and opened.
#[verifier::opaque]
pub open spec fn recorder_to_have<S>(
    m: AudioModel<S>,
    system_audio: bool,
    then: Then<Seq<char>>,
    a: AudioAnswers<S>,
) -> AudioNext<S> {
    if !a.vad_path {
        without_stream(m, then, AudioError::VadPath)
    } else if !m.has_recorder && !a.created {
        without_stream(m, then, AudioError::CreateRecorder)
    } else {
        recorder_to_open(AudioModel { has_recorder: true, ..m }, system_audio, then, a)
    }
}

proof fn lemma_recorder_to_have<S>(
    m: AudioModel<S>,
    system_audio: bool,
    then: Then<Seq<char>>,
    a: AudioAnswers<S>,
    most: nat,
)
    requires
        m.stage == (AudioStage::ResolvingVadPath { system_audio, then }),
        most >= 4,
    ensures
        rest_of(m, a, most) == recorder_to_have(
            AudioModel { stage: AudioStage::Ready, ..m },
            system_audio,
            then,
            a,
        ),
{
    reveal(recorder_to_have);
    let idle = AudioModel { stage: AudioStage::Ready, ..m };
    let with_recorder = AudioModel { has_recorder: true, ..idle };
    let next = after_answer(m, a);
    lemma_step(m, a, most);
    assert(next == answered(m, a.vad_path)) by {
        reveal(after_answer);
    }
    if a.vad_path {
        let last = recorder_to_open(with_recorder, system_audio, then, a);
        lemma_nothing_before(last);
        if m.has_recorder {
            lemma_recorder_to_open(next.state, system_audio, then, a, (most - 1) as nat);
            assert(AudioModel { stage: AudioStage::Ready, ..next.state } == with_recorder);
        } else {
            let made = after_answer(next.state, a);
            lemma_step(next.state, a, (most - 1) as nat);
            assert(made == answered(next.state, a.created)) by {
                reveal(after_answer);
            }
            lemma_nothing_before(made);
            if a.created {
                lemma_recorder_to_open(made.state, system_audio, then, a, (most - 2) as nat);
                assert(AudioModel { stage: AudioStage::Ready, ..made.state } == with_recorder);
            }
        }
    }
}

/// The stream is opened on the system audio, which takes macOS.
pub open spec fn on_system_audio<S>(m: AudioModel<S>, a: AudioAnswers<S>) -> bool {
    m.source is SystemAudio && (m.platform is MacIntel || m.platform is MacApple) && a.available
}

/// What opening the stream leads to. An open one stays as it is. A closed one is
/// opened on the system audio, which is unmuted and captured first, where that
/// is the source and can be had, and on the microphone otherwise.
#[verifier::opaque]
pub open spec fn stream_to_open<S>(
    m: AudioModel<S>,
    then: Then<Seq<char>>,
    a: AudioAnswers<S>,
) -> AudioNext<S> {
    if m.open {
        with_stream(m, then, a)
    } else if on_system_audio(m, a) {
        let capturing = AudioModel { muted: false, has_capture: true, ..m };
        preceded(
            seq![AudioEffect::SetMute(false)],
            if a.capture {
                recorder_to_have(capturing, true, then, a)
            } else {
                without_stream(capturing, then, AudioError::StartSystemAudio)
            },
        )
    } else {
        recorder_to_have(AudioModel { muted: false, ..m }, false, then, a)
    }
}

proof fn lemma_system_audio_checked<S>(
    m: AudioModel<S>,
    then: Then<Seq<char>>,
    a: AudioAnswers<S>,
    most: nat,
)
    requires
        m.stage == AudioStage::CheckingSystemAudio(then),
        m.source is SystemAudio,
        m.platform is MacIntel || m.platform is MacApple,
        most >= 6,
    ensures
        rest_of(m, a, most) == stream_to_open(
            AudioModel { stage: AudioStage::Ready, ..m },
            then,
            a,
        ),
{
    reveal(stream_to_open);
    let idle = AudioModel { stage: AudioStage::Ready, ..m };
    let next = after_answer(m, a);
    lemma_step(m, a, most);
    assert(next == answered(m, a.available)) by {
        reveal(after_answer);
    }
    if m.open {
        assert(next == opened(idle, Seq::empty(), then));
        lemma_with_stream(idle, Seq::empty(), then, a, (most - 1) as nat);
        lemma_nothing_before(with_stream(idle, then, a));
    } else if a.available {
        let capturing = AudioModel { muted: false, has_capture: true, ..idle };
        let started = after_answer(next.state, a);
        lemma_step(next.state, a, (most - 1) as nat);
        assert(started == answered(next.state, a.capture)) by {
            reveal(after_answer);
        }
        if a.capture {
            lemma_recorder_to_have(started.state, true, then, a, (most - 2) as nat);
            assert(AudioModel { stage: AudioStage::Ready, ..started.state } == capturing);
            lemma_nothing_before(recorder_to_have(capturing, true, then, a));
        }
    } else {
        let unmuted = AudioModel { muted: false, ..idle };
        lemma_recorder_to_have(next.state, false, then, a, (most - 1) as nat);
        assert(AudioModel { stage: AudioStage::Ready, ..next.state } == unmuted);
        lemma_nothing_before(recorder_to_have(unmuted, false, then, a));
    }
}

proof fn lemma_stream_to_open<S>(
    m: AudioModel<S>,
    effects: Seq<AudioEffect>,
    then: Then<Seq<char>>,
    a: AudioAnswers<S>,
    most: nat,
)
    requires
        m.stage is Ready,
        most >= 6,
    ensures
        leads_to(opening(m, effects, then), a, most, preceded(effects, stream_to_open(m, then, a))),
{
    let first = opening(m, effects, then);
    if m.source is SystemAudio && (m.platform is MacIntel || m.platform is MacApple) {
        lemma_system_audio_checked(first.state, then, a, most);
        assert(AudioModel { stage: AudioStage::Ready, ..first.state } == m);
    } else {
        assert(stream_to_open(m, then, a) == if m.open {
            with_stream(m, then, a)
        } else {
            recorder_to_have(AudioModel { muted: false, ..m }, false, then, a)
        }) by {
            reveal(stream_to_open);
        }
        if m.open {
            assert(first == opened(m, effects, then));
            lemma_with_stream(m, effects, then, a, most);
        } else {
            lemma_recorder_to_have(first.state, false, then, a, most);
            assert(AudioModel { stage: AudioStage::Ready, ..first.state } == AudioModel {
                muted: false,
                ..m
            });
        }
    }
}

/// Opening the stream leads to what [`stream_to_open`] says, and a new manager
/// opens it where the microphone is always on, and otherwise does nothing.
pub proof fn law_what_opening_the_stream_comes_to<S>(
    m: AudioModel<S>,
    then: Then<Seq<char>>,
    a: AudioAnswers<S>,
    settings: AppSettings,
)
    requires
        m.stage is Ready,
    ensures
        whole(opening(m, Seq::empty(), then), a) == stream_to_open(m, then, a),
        ({
            let new = AudioModel {
                platform: m.platform,
                silence: m.silence,
                binding: None,
                mode: if settings.always_on_microphone {
                    MicrophoneMode::AlwaysOn
                } else {
                    MicrophoneMode::OnDemand
                },
                source: settings.audio_source,
                has_recorder: false,
                has_capture: false,
                open: false,
                recording: false,
                muted: false,
                streaming: false,
                buffered: Seq::empty(),
                stage: AudioStage::Ready,
            };
            whole(created(settings, m.platform, m.silence), a) == if settings.always_on_microphone {
                stream_to_open(new, Then::Rest, a)
            } else {
                ended(new, Seq::empty(), AudioOutcome::Done)
            }
        }),
{
    let end = stream_to_open(m, then, a);
    lemma_stream_to_open(m, Seq::empty(), then, a, 9);
    assert(Seq::<AudioEffect>::empty() + end.effects =~= end.effects);
    let new = crate::managers::audio::fresh(settings, m.platform, m.silence);
    lemma_stream_to_open(new, Seq::empty(), Then::Rest, a, 9);
    let other = stream_to_open(new, Then::Rest, a);
    assert(Seq::<AudioEffect>::empty() + other.effects =~= other.effects);
}

/// A recording starts for the binding unless one is under way: with the
/// microphone always on, the recorder has only to start; on demand, the stream is
/// opened first.
pub proof fn law_what_starting_a_recording_comes_to<S>(
    m: AudioModel<S>,
    binding: Seq<char>,
    a: AudioAnswers<S>,
)
    requires
        m.stage is Ready,
    ensures
        whole(start_tried(m, binding), a) == if m.binding is Some {
            ended(m, Seq::empty(), AudioOutcome::RecordingStarted(false))
        } else if m.mode is OnDemand {
            stream_to_open(m, Then::Record(binding), a)
        } else if m.has_recorder && a.started {
            ended(
                AudioModel { recording: true, binding: Some(binding), ..m },
                Seq::empty(),
                AudioOutcome::RecordingStarted(true),
            )
        } else {
            ended(m, Seq::empty(), AudioOutcome::RecordingStarted(false))
        },
{
    if m.binding is None && m.mode is OnDemand {
        let end = stream_to_open(m, Then::Record(binding), a);
        lemma_stream_to_open(m, Seq::empty(), Then::Record(binding), a, 9);
        assert(Seq::<AudioEffect>::empty() + end.effects =~= end.effects);
    } else if m.binding is None && m.has_recorder {
        let first = start_tried(m, binding);
        assert(after_answer(first.state, a) == answered(first.state, a.started)) by {
            reveal(after_answer);
        }
        lemma_last_step(first.state, a, 9);
        lemma_nothing_before(after_answer(first.state, a));
    }
}

/// A stream that is open and closes: the system is unmuted if it was muted, what
/// is being recorded is thrown away, the recorder is closed, and on macOS the
/// capture ends, in this order. A closed one stays as it is.
#[verifier::opaque]
pub open spec fn close_down<S>(m: AudioModel<S>) -> (AudioModel<S>, Seq<AudioEffect>) {
    if !m.open {
        (m, Seq::empty())
    } else {
        (
            AudioModel {
                open: false,
                muted: false,
                recording: if m.has_recorder {
                    false
                } else {
                    m.recording
                },
                ..m
            },
            effect_if(m.muted, AudioEffect::SetMute(false)) + effect_if(
                m.has_recorder && m.recording,
                AudioEffect::DiscardSamples,
            ) + effect_if(m.has_recorder, AudioEffect::CloseRecorder) + effect_if(
                m.has_capture && (m.platform is MacIntel || m.platform is MacApple),
                AudioEffect::StopCapture,
            ),
        )
    }
}

/// What closing the stream does.
pub proof fn law_what_closing_the_stream_comes_to<S>(m: AudioModel<S>)
    ensures
        (closed(m), closing_effects(m)) == close_down(m),
{
    reveal(close_down);
    assert(closing_effects(m) =~= close_down(m).1);
}

/// Only the binding that records can stop the recording. It gets everything that
/// was recorded, what was kept first, and filled up where it is very short; and
/// on demand the stream is closed.
pub proof fn law_what_stopping_a_recording_comes_to<S>(
    m: AudioModel<S>,
    binding: Seq<char>,
    a: AudioAnswers<S>,
)
    requires
        m.stage is Ready,
    ensures
        ({
            let taken = match a.samples {
                Some(samples) if m.has_recorder => samples,
                _ => Seq::<S>::empty(),
            };
            let idle = AudioModel {
                binding: None,
                recording: false,
                buffered: Seq::<S>::empty(),
                ..m
            };
            let outcome = AudioOutcome::Samples(Some(padded(m.buffered + taken, m.silence)));
            whole(stop_begun(m, binding), a) == if m.binding != Some(binding) {
                ended(m, Seq::empty(), AudioOutcome::Samples(None))
            } else if m.mode is OnDemand {
                ended(close_down(idle).0, close_down(idle).1, outcome)
            } else {
                ended(idle, Seq::empty(), outcome)
            }
        }),
{
    let idle = AudioModel { binding: None, recording: false, buffered: Seq::<S>::empty(), ..m };
    law_what_closing_the_stream_comes_to(idle);
    let first = stop_begun(m, binding);
    if m.binding == Some(binding) {
        if m.has_recorder {
            assert(after_answer(first.state, a) == samples_taken(first.state, a.samples)) by {
                reveal(after_answer);
            }
            lemma_last_step(first.state, a, 9);
            lemma_nothing_before(after_answer(first.state, a));
        }
        if m.mode is OnDemand {
            assert(closed(AudioModel { stage: AudioStage::Ready, ..idle }) == close_down(idle).0);
        }
    }
}

/// Cancelling ends a recording, if there is one: its samples and what was kept
/// are thrown away, and on demand the stream is closed.
pub proof fn law_what_cancelling_comes_to<S>(m: AudioModel<S>)
    requires
        m.stage is Ready,
    ensures
        ({
            let idle = AudioModel {
                binding: None,
                recording: false,
                buffered: Seq::<S>::empty(),
                ..m
            };
            let discarded = effect_if(m.has_recorder, AudioEffect::DiscardSamples);
            canceled(m) == if m.binding is None {
                ended(m, Seq::empty(), AudioOutcome::Done)
            } else if m.mode is OnDemand {
                ended(close_down(idle).0, discarded + close_down(idle).1, AudioOutcome::Done)
            } else {
                ended(idle, discarded, AudioOutcome::Done)
            }
        }),
{
    let idle = AudioModel { binding: None, recording: false, buffered: Seq::<S>::empty(), ..m };
    law_what_closing_the_stream_comes_to(idle);
}

/// What a change of the stream comes to. A closed stream stays closed. An open
/// one is closed and opened again, and a recording goes on: what the recorder has
/// is kept before that.
#[verifier::opaque]
pub open spec fn stream_to_change<S>(m: AudioModel<S>, a: AudioAnswers<S>) -> AudioNext<S> {
    let taken = match a.samples {
        Some(samples) if m.recording && m.has_recorder => samples,
        _ => Seq::<S>::empty(),
    };
    let kept = AudioModel { recording: false, buffered: m.buffered + taken, ..m };
    if !m.open {
        ended(m, Seq::empty(), AudioOutcome::Done)
    } else {
        preceded(
            close_down(kept).1,
            stream_to_open(
                close_down(kept).0,
                Then::Resume { was_recording: m.recording },
                a,
            ),
        )
    }
}

proof fn lemma_stream_to_change<S>(m: AudioModel<S>, a: AudioAnswers<S>)
    requires
        m.stage is Ready,
    ensures
        whole(switching(m), a) == stream_to_change(m, a),
{
    reveal(stream_to_change);
    let then = Then::<Seq<char>>::Resume { was_recording: m.recording };
    let first = switching(m);
    let end = stream_to_change(m, a);
    if m.open {
        let taken = match a.samples {
            Some(samples) if m.recording && m.has_recorder => samples,
            _ => Seq::<S>::empty(),
        };
        let kept = AudioModel { recording: false, buffered: m.buffered + taken, ..m };
        law_what_closing_the_stream_comes_to(kept);
        assert(close_down(kept).0.stage is Ready);
        if m.recording && m.has_recorder {
            let next = after_answer(first.state, a);
            assert(next == samples_taken(first.state, a.samples)) by {
                reveal(after_answer);
            }
            assert(next == opening(close_down(kept).0, close_down(kept).1, then));
            lemma_stream_to_open(close_down(kept).0, close_down(kept).1, then, a, 8);
            lemma_step(first.state, a, 9);
            lemma_nothing_before(end);
        } else {
            assert(m.buffered + Seq::<S>::empty() =~= m.buffered);
            assert(first == opening(close_down(kept).0, close_down(kept).1, then));
            lemma_stream_to_open(close_down(kept).0, close_down(kept).1, then, a, 9);
        }
    }
}

/// Another source, or another microphone, changes the stream as
/// [`stream_to_change`] says; the source that is in use already changes nothing.
pub proof fn law_what_a_change_of_the_stream_comes_to<S>(
    m: AudioModel<S>,
    source: AudioSource,
    a: AudioAnswers<S>,
)
    requires
        m.stage is Ready,
    ensures
        whole(switching(m), a) == stream_to_change(m, a),
        whole(source_updated(m, source), a) == if source == m.source {
            ended(m, Seq::empty(), AudioOutcome::Done)
        } else {
            stream_to_change(AudioModel { source, ..m }, a)
        },
{
    lemma_stream_to_change(m, a);
    lemma_stream_to_change(AudioModel { source, ..m }, a);
}

/// A microphone that is to be always on is opened, and is so only if that works;
/// one that is to be on demand is closed, unless a recording is under way. The
/// mode that is in use already changes nothing.
pub proof fn law_what_a_change_of_the_mode_comes_to<S>(
    m: AudioModel<S>,
    mode: MicrophoneMode,
    a: AudioAnswers<S>,
)
    requires
        m.stage is Ready,
    ensures
        whole(mode_updated(m, mode), a) == if mode == m.mode {
            ended(m, Seq::empty(), AudioOutcome::Done)
        } else if mode is AlwaysOn {
            stream_to_open(m, Then::SetMode(MicrophoneMode::AlwaysOn), a)
        } else if m.binding is Some {
            ended(AudioModel { mode, ..m }, Seq::empty(), AudioOutcome::Done)
        } else {
            ended(
                AudioModel { mode, ..close_down(m).0 },
                close_down(m).1,
                AudioOutcome::Done,
            )
        },
{
    let then = Then::<Seq<char>>::SetMode(MicrophoneMode::AlwaysOn);
    let end = stream_to_open(m, then, a);
    law_what_closing_the_stream_comes_to(m);
    if m.mode is OnDemand && mode is AlwaysOn {
        lemma_stream_to_open(m, Seq::empty(), then, a, 9);
        lemma_nothing_before(end);
    }
}

/// The system is muted for a recording where that is wanted, the stream is open
/// and the microphone alone is recorded, and in no other case. The audio is
/// streamed once the recorder does so, and without a recorder not at all.
pub proof fn law_what_muting_and_streaming_come_to<S>(
    m: AudioModel<S>,
    wanted: bool,
    a: AudioAnswers<S>,
)
    requires
        m.stage is Ready,
    ensures
        ({
            let mute = wanted && m.open && m.source == AudioSource::Microphone;
            &&& mute_effects(m, wanted) == effect_if(mute, AudioEffect::SetMute(true))
            &&& mute_applied(m, wanted) == if mute {
                AudioModel { muted: true, ..m }
            } else {
                m
            }
        }),
        whole(streaming_begun(m), a) == if m.has_recorder && a.streams {
            ended(
                AudioModel { streaming: true, ..m },
                Seq::empty(),
                AudioOutcome::StreamingEnabled(true),
            )
        } else {
            ended(m, Seq::empty(), AudioOutcome::StreamingEnabled(false))
        },
{
    let first = streaming_begun(m);
    if m.has_recorder {
        assert(after_answer(first.state, a) == answered(first.state, a.streams)) by {
            reveal(after_answer);
        }
        lemma_last_step(first.state, a, 9);
        lemma_nothing_before(after_answer(first.state, a));
    }
}

/// What an error says before its cause.
pub proof fn law_how_errors_begin()
    ensures
        audio_error_prefix(AudioError::VadPath) == "Failed to resolve VAD path: "@,
        audio_error_prefix(AudioError::CreateRecorder) == Seq::<char>::empty(),
        audio_error_prefix(AudioError::OpenRecorder) == "Failed to open recorder: "@,
        audio_error_prefix(AudioError::StartSystemAudio) == "Failed to start system audio: "@,
        audio_error_prefix(AudioError::OpenSystemAudio)
            == "Failed to open recorder with system audio: "@,
        audio_error_prefix(AudioError::ResumeRecording) == "Failed to resume recording: "@,
{
}

/// The question of a turn is the one whose answer its stage waits for.
pub open spec fn asks_for_its_stage<S>(next: AudioNext<S>) -> bool {
    match next.state.stage {
        AudioStage::Ready => next.ask is Finished,
        AudioStage::CheckingSystemAudio(_) => next.ask is IsSystemAudioAvailable,
        AudioStage::StartingCapture(_) => next.ask is StartCapture,
        AudioStage::ResolvingVadPath { .. } => next.ask is ResolveVadPath,
        AudioStage::CreatingRecorder { .. } => next.ask is CreateRecorder,
        AudioStage::OpeningRecorder { system_audio, .. } => next.ask == (AudioAsk::<
            Seq<S>,
        >::OpenRecorder { system_audio }),
        AudioStage::CollectingForSwitch | AudioStage::CollectingForStop => next.ask
            is CollectSamples,
        AudioStage::StartingRecording(_) | AudioStage::ResumingRecording => next.ask
            is StartRecorder,
        AudioStage::ReadingMuteSetting => next.ask is ReadMuteSetting,
        AudioStage::EnablingStreaming => next.ask is EnableStreaming,
    }
}

/// Every turn asks for what its stage waits for, and says on what the recorder
/// is to be opened.
pub proof fn law_turns_ask_for_what_they_wait_for<S>(
    m: AudioModel<S>,
    effects: Seq<AudioEffect>,
    then: Then<Seq<char>>,
    yes: bool,
    samples: Option<Seq<S>>,
    binding: Seq<char>,
)
    ensures
        asks_for_its_stage(opening(m, effects, then)),
        asks_for_its_stage(answered(m, yes)),
        asks_for_its_stage(samples_taken(m, samples)),
        asks_for_its_stage(start_tried(m, binding)),
        asks_for_its_stage(stop_begun(m, binding)),
        asks_for_its_stage(switching(m)),
        asks_for_its_stage(streaming_begun(m)),
{
    lemma_opening_asks(m, effects, then);
    lemma_opening_asks(m, Seq::empty(), Then::Record(binding));
    lemma_answered_asks(m, yes);
    lemma_samples_ask(m, samples);
    lemma_switching_asks(m);
}

proof fn lemma_opened_asks<S>(m: AudioModel<S>, effects: Seq<AudioEffect>, then: Then<Seq<char>>)
    ensures
        asks_for_its_stage(opened(m, effects, then)),
{
}

proof fn lemma_opening_asks<S>(m: AudioModel<S>, effects: Seq<AudioEffect>, then: Then<Seq<char>>)
    ensures
        asks_for_its_stage(opening(m, effects, then)),
{
    lemma_opened_asks(m, effects, then);
}

proof fn lemma_answered_asks<S>(m: AudioModel<S>, yes: bool)
    ensures
        asks_for_its_stage(answered(m, yes)),
{
    let idle = AudioModel { stage: AudioStage::Ready, ..m };
    match m.stage {
        AudioStage::CheckingSystemAudio(then) => lemma_opened_asks(idle, Seq::empty(), then),
        AudioStage::OpeningRecorder { then, .. } => lemma_opened_asks(
            AudioModel { open: true, ..idle },
            Seq::empty(),
            then,
        ),
        _ => {},
    }
}

proof fn lemma_samples_ask<S>(m: AudioModel<S>, samples: Option<Seq<S>>)
    ensures
        asks_for_its_stage(samples_taken(m, samples)),
{
    if !(m.stage is CollectingForStop) {
        let taken = match samples {
            Some(s) => s,
            None => Seq::<S>::empty(),
        };
        let kept = AudioModel {
            stage: AudioStage::Ready,
            recording: false,
            buffered: m.buffered + taken,
            ..m
        };
        lemma_opening_asks(
            closed(kept),
            closing_effects(kept),
            Then::Resume { was_recording: true },
        );
    }
}

proof fn lemma_switching_asks<S>(m: AudioModel<S>)
    ensures
        asks_for_its_stage(switching(m)),
{
    let kept = AudioModel { recording: false, ..m };
    lemma_opening_asks(
        closed(kept),
        closing_effects(kept),
        Then::Resume { was_recording: m.recording },
    );
}

} // verus!
