//! The recording life cycle: when the audio stream is open, when a recording
//! runs, and what becomes of its samples.
//!
//! An operation alternates between effects, which are carried out in order,
//! and questions, whose answers decide how it goes on, until it has an outcome.

use vstd::prelude::*;
use vstd::string::*;

use crate::samples::{pad_short, padded};
use crate::settings::{AppSettings, AudioSource, Platform};
use crate::text::same;

verus! {

/// Whether a recording is in progress, and on whose behalf.
#[derive(Clone, Debug)]
pub enum RecordingState {
    Idle,
    Recording { binding_id: String },
}

impl View for RecordingState {
    type V = Option<Seq<char>>;

    open spec fn view(&self) -> Option<Seq<char>> {
        match self {
            RecordingState::Idle => None,
            RecordingState::Recording { binding_id } => Some(binding_id@),
        }
    }
}

/// When the microphone stream is open.
#[derive(Clone, Copy, Debug, PartialEq, Eq, Structural)]
pub enum MicrophoneMode {
    AlwaysOn,
    OnDemand,
}

/// An effect of an operation.
#[derive(Clone, Copy, Debug, PartialEq, Eq, Structural)]
pub enum AudioEffect {
    /// Mute the output of the system, or unmute it.
    SetMute(bool),
    /// Stop the recorder and throw its samples away.
    DiscardSamples,
    CloseRecorder,
    /// Stop capturing the system audio, if it is captured.
    StopCapture,
    /// Forward the stream of the recorder to the consumers again.
    ReconnectStreaming,
    DisableStreaming,
}

/// Why an operation failed.
#[derive(Clone, Copy, Debug, PartialEq, Eq, Structural)]
pub enum AudioError {
    /// The voice activity model has no path.
    VadPath,
    CreateRecorder,
    OpenRecorder,
    StartSystemAudio,
    /// The recorder does not take the system audio.
    OpenSystemAudio,
    ResumeRecording,
}

/// The words that an error begins with, before its cause.
pub open spec fn audio_error_prefix(error: AudioError) -> Seq<char> {
    match error {
        AudioError::VadPath => "Failed to resolve VAD path: "@,
        AudioError::CreateRecorder => Seq::empty(),
        AudioError::OpenRecorder => "Failed to open recorder: "@,
        AudioError::StartSystemAudio => "Failed to start system audio: "@,
        AudioError::OpenSystemAudio => "Failed to open recorder with system audio: "@,
        AudioError::ResumeRecording => "Failed to resume recording: "@,
    }
}

impl AudioError {
    /// The error in words.
    pub fn message(&self, cause: &str) -> (r: String)
        ensures
            r@ == audio_error_prefix(*self) + cause@,
    {
        let prefix = match self {
            AudioError::VadPath => "Failed to resolve VAD path: ",
            AudioError::CreateRecorder => {
                assert(Seq::<char>::empty() + cause@ =~= cause@);
                return cause.to_owned();
            },
            AudioError::OpenRecorder => "Failed to open recorder: ",
            AudioError::StartSystemAudio => "Failed to start system audio: ",
            AudioError::OpenSystemAudio => "Failed to open recorder with system audio: ",
            AudioError::ResumeRecording => "Failed to resume recording: ",
        };
        prefix.to_owned().concat(cause)
    }
}

/// What came of an operation; `C` is the type of sample sequences.
pub enum AudioOutcome<C> {
    Done,
    Failed(AudioError),
    /// Whether the recording has started.
    RecordingStarted(bool),
    /// The samples of a recording that was ended.
    Samples(Option<C>),
    /// Whether the audio is streamed.
    StreamingEnabled(bool),
}

/// A question of an operation; `C` is the type of sample sequences.
pub enum AudioAsk<C> {
    /// Can the system audio be captured?
    IsSystemAudioAvailable,
    /// Start capturing the system audio. Did it start?
    StartCapture,
    /// Resolve the path of the voice activity model. Is there one?
    ResolveVadPath,
    /// Create the recorder. Did that work?
    CreateRecorder,
    /// Open the recorder, on the captured system audio or on the microphone
    /// that the settings name. Did that work?
    OpenRecorder { system_audio: bool },
    /// Stop the recorder. What are its samples? `None` is a failure.
    CollectSamples,
    /// Start the recorder. Did it start?
    StartRecorder,
    /// Is the system to be muted during recordings?
    ReadMuteSetting,
    /// Have the recorder stream its audio. Does it?
    EnableStreaming,
    /// Nothing: the operation has ended.
    Finished(AudioOutcome<C>),
}

/// What follows when the stream is open; `T` is the type of texts.
pub enum Then<T> {
    /// Nothing.
    Rest,
    /// The mode changes.
    SetMode(MicrophoneMode),
    /// A recording starts for the binding.
    Record(T),
    /// The recording goes on, if there was one.
    Resume { was_recording: bool },
}

/// What an operation waits for; `T` is the type of texts.
pub enum AudioStage<T> {
    /// No operation is under way.
    Ready,
    CheckingSystemAudio(Then<T>),
    StartingCapture(Then<T>),
    ResolvingVadPath { system_audio: bool, then: Then<T> },
    CreatingRecorder { system_audio: bool, then: Then<T> },
    OpeningRecorder { system_audio: bool, then: Then<T> },
    /// The samples are collected before the stream is changed.
    CollectingForSwitch,
    /// The samples are collected for good.
    CollectingForStop,
    StartingRecording(T),
    ResumingRecording,
    ReadingMuteSetting,
    EnablingStreaming,
}

impl View for Then<String> {
    type V = Then<Seq<char>>;

    open spec fn view(&self) -> Then<Seq<char>> {
        match self {
            Then::Rest => Then::Rest,
            Then::SetMode(mode) => Then::SetMode(*mode),
            Then::Record(binding) => Then::Record(binding@),
            Then::Resume { was_recording } => Then::Resume { was_recording: *was_recording },
        }
    }
}

impl View for AudioStage<String> {
    type V = AudioStage<Seq<char>>;

    open spec fn view(&self) -> AudioStage<Seq<char>> {
        match self {
            AudioStage::Ready => AudioStage::Ready,
            AudioStage::CheckingSystemAudio(then) => AudioStage::CheckingSystemAudio(then@),
            AudioStage::StartingCapture(then) => AudioStage::StartingCapture(then@),
            AudioStage::ResolvingVadPath { system_audio, then } => AudioStage::ResolvingVadPath {
                system_audio: *system_audio,
                then: then@,
            },
            AudioStage::CreatingRecorder { system_audio, then } => AudioStage::CreatingRecorder {
                system_audio: *system_audio,
                then: then@,
            },
            AudioStage::OpeningRecorder { system_audio, then } => AudioStage::OpeningRecorder {
                system_audio: *system_audio,
                then: then@,
            },
            AudioStage::CollectingForSwitch => AudioStage::CollectingForSwitch,
            AudioStage::CollectingForStop => AudioStage::CollectingForStop,
            AudioStage::StartingRecording(binding) => AudioStage::StartingRecording(binding@),
            AudioStage::ResumingRecording => AudioStage::ResumingRecording,
            AudioStage::ReadingMuteSetting => AudioStage::ReadingMuteSetting,
            AudioStage::EnablingStreaming => AudioStage::EnablingStreaming,
        }
    }
}

impl<S> View for AudioOutcome<Vec<S>> {
    type V = AudioOutcome<Seq<S>>;

    open spec fn view(&self) -> AudioOutcome<Seq<S>> {
        match self {
            AudioOutcome::Done => AudioOutcome::Done,
            AudioOutcome::Failed(error) => AudioOutcome::Failed(*error),
            AudioOutcome::RecordingStarted(b) => AudioOutcome::RecordingStarted(*b),
            AudioOutcome::Samples(samples) => AudioOutcome::Samples(
                match samples {
                    Some(v) => Some(v@),
                    None => None,
                },
            ),
            AudioOutcome::StreamingEnabled(b) => AudioOutcome::StreamingEnabled(*b),
        }
    }
}

impl<S> View for AudioAsk<Vec<S>> {
    type V = AudioAsk<Seq<S>>;

    open spec fn view(&self) -> AudioAsk<Seq<S>> {
        match self {
            AudioAsk::IsSystemAudioAvailable => AudioAsk::IsSystemAudioAvailable,
            AudioAsk::StartCapture => AudioAsk::StartCapture,
            AudioAsk::ResolveVadPath => AudioAsk::ResolveVadPath,
            AudioAsk::CreateRecorder => AudioAsk::CreateRecorder,
            AudioAsk::OpenRecorder { system_audio } => AudioAsk::OpenRecorder {
                system_audio: *system_audio,
            },
            AudioAsk::CollectSamples => AudioAsk::CollectSamples,
            AudioAsk::StartRecorder => AudioAsk::StartRecorder,
            AudioAsk::ReadMuteSetting => AudioAsk::ReadMuteSetting,
            AudioAsk::EnableStreaming => AudioAsk::EnableStreaming,
            AudioAsk::Finished(outcome) => AudioAsk::Finished(outcome@),
        }
    }
}

/// The mathematical state of an [`AudioRecordingManager`].
pub struct AudioModel<S> {
    pub platform: Platform,
    /// A sample of silence.
    pub silence: S,
    /// The binding that records.
    pub binding: Option<Seq<char>>,
    pub mode: MicrophoneMode,
    pub source: AudioSource,
    pub has_recorder: bool,
    /// There is something that can capture the system audio.
    pub has_capture: bool,
    /// The stream is open.
    pub open: bool,
    /// The recorder takes samples.
    pub recording: bool,
    /// The system was muted for the recording.
    pub muted: bool,
    /// The audio is streamed to consumers.
    pub streaming: bool,
    /// Samples from before a change of the stream.
    pub buffered: Seq<S>,
    pub stage: AudioStage<Seq<char>>,
}

/// A turn of an operation: the state it leaves behind, the effects to carry
/// out, and the question to answer.
pub struct AudioNext<S> {
    pub state: AudioModel<S>,
    pub effects: Seq<AudioEffect>,
    pub ask: AudioAsk<Seq<S>>,
}

/// The question `ask`, at a stage that waits for its answer.
pub open spec fn asking<S>(
    m: AudioModel<S>,
    effects: Seq<AudioEffect>,
    ask: AudioAsk<Seq<S>>,
    stage: AudioStage<Seq<char>>,
) -> AudioNext<S> {
    AudioNext { state: AudioModel { stage, ..m }, effects, ask }
}

/// The end of an operation.
pub open spec fn finished<S>(
    m: AudioModel<S>,
    effects: Seq<AudioEffect>,
    outcome: AudioOutcome<Seq<S>>,
) -> AudioNext<S> {
    AudioNext {
        state: AudioModel { stage: AudioStage::Ready, ..m },
        effects,
        ask: AudioAsk::Finished(outcome),
    }
}

/// The effects that close the stream.
pub open spec fn closing_effects<S>(m: AudioModel<S>) -> Seq<AudioEffect> {
    if !m.open {
        Seq::empty()
    } else {
        (if m.muted {
            seq![AudioEffect::SetMute(false)]
        } else {
            Seq::empty()
        }) + (if m.has_recorder && m.recording {
            seq![AudioEffect::DiscardSamples]
        } else {
            Seq::empty()
        }) + (if m.has_recorder {
            seq![AudioEffect::CloseRecorder]
        } else {
            Seq::empty()
        }) + (if m.platform.mac() && m.has_capture {
            seq![AudioEffect::StopCapture]
        } else {
            Seq::empty()
        })
    }
}

/// The state after the stream was closed.
pub open spec fn closed<S>(m: AudioModel<S>) -> AudioModel<S> {
    if !m.open {
        m
    } else {
        AudioModel {
            open: false,
            muted: false,
            recording: m.recording && !m.has_recorder,
            ..m
        }
    }
}

/// The stream is to be opened. The system audio needs macOS; everywhere else
/// the microphone takes its place.
pub open spec fn opening<S>(
    m: AudioModel<S>,
    effects: Seq<AudioEffect>,
    then: Then<Seq<char>>,
) -> AudioNext<S> {
    if m.source is SystemAudio && m.platform.mac() {
        asking(
            m,
            effects,
            AudioAsk::IsSystemAudioAvailable,
            AudioStage::CheckingSystemAudio(then),
        )
    } else {
        opening_microphone(m, effects, then)
    }
}

/// The stream is to be opened on the microphone.
pub open spec fn opening_microphone<S>(
    m: AudioModel<S>,
    effects: Seq<AudioEffect>,
    then: Then<Seq<char>>,
) -> AudioNext<S> {
    if m.open {
        opened(m, effects, then)
    } else {
        asking(
            AudioModel { muted: false, ..m },
            effects,
            AudioAsk::ResolveVadPath,
            AudioStage::ResolvingVadPath { system_audio: false, then },
        )
    }
}

/// The stream is to be opened on the system audio, which must not be muted.
pub open spec fn opening_system_audio<S>(m: AudioModel<S>, then: Then<Seq<char>>) -> AudioNext<S> {
    if m.open {
        opened(m, Seq::empty(), then)
    } else {
        asking(
            AudioModel { muted: false, has_capture: true, ..m },
            seq![AudioEffect::SetMute(false)],
            AudioAsk::StartCapture,
            AudioStage::StartingCapture(then),
        )
    }
}

/// The stream is open.
pub open spec fn opened<S>(
    m: AudioModel<S>,
    effects: Seq<AudioEffect>,
    then: Then<Seq<char>>,
) -> AudioNext<S> {
    match then {
        Then::Rest => finished(m, effects, AudioOutcome::Done),
        Then::SetMode(mode) => finished(AudioModel { mode, ..m }, effects, AudioOutcome::Done),
        Then::Record(binding) => starting(m, effects, binding),
        Then::Resume { was_recording } => {
            let all = if m.streaming && m.has_recorder {
                effects.push(AudioEffect::ReconnectStreaming)
            } else {
                effects
            };
            if !was_recording {
                finished(m, all, AudioOutcome::Done)
            } else if m.has_recorder {
                asking(m, all, AudioAsk::StartRecorder, AudioStage::ResumingRecording)
            } else {
                resumed(m, all)
            }
        },
    }
}

/// A recording is to start.
pub open spec fn starting<S>(
    m: AudioModel<S>,
    effects: Seq<AudioEffect>,
    binding: Seq<char>,
) -> AudioNext<S> {
    if m.has_recorder {
        asking(m, effects, AudioAsk::StartRecorder, AudioStage::StartingRecording(binding))
    } else {
        finished(m, effects, AudioOutcome::RecordingStarted(false))
    }
}

/// The recording goes on.
pub open spec fn resumed<S>(m: AudioModel<S>, effects: Seq<AudioEffect>) -> AudioNext<S> {
    asking(
        AudioModel { recording: true, ..m },
        effects,
        AudioAsk::ReadMuteSetting,
        AudioStage::ReadingMuteSetting,
    )
}

/// The stream could not be opened.
pub open spec fn not_opened<S>(m: AudioModel<S>, then: Then<Seq<char>>, error: AudioError) -> AudioNext<S> {
    finished(
        m,
        Seq::empty(),
        if then is Record {
            AudioOutcome::RecordingStarted(false)
        } else {
            AudioOutcome::Failed(error)
        },
    )
}

/// Muting applies: only a microphone that records alone has the system muted.
pub open spec fn mutes<S>(m: AudioModel<S>, mute_while_recording: bool) -> bool {
    mute_while_recording && m.source is Microphone && m.open
}

/// The state after muting, where it applies.
pub open spec fn mute_applied<S>(m: AudioModel<S>, mute_while_recording: bool) -> AudioModel<S> {
    AudioModel { muted: m.muted || mutes(m, mute_while_recording), ..m }
}

/// The effects of muting, where it applies.
pub open spec fn mute_effects<S>(m: AudioModel<S>, mute_while_recording: bool) -> Seq<AudioEffect> {
    if mutes(m, mute_while_recording) {
        seq![AudioEffect::SetMute(true)]
    } else {
        Seq::empty()
    }
}

/// The stream is closed and opened again; a recording goes on.
pub open spec fn restarted<S>(m: AudioModel<S>, was_recording: bool) -> AudioNext<S> {
    opening(closed(m), closing_effects(m), Then::Resume { was_recording })
}

/// The stream has to change under an operation that is under way.
pub open spec fn switching<S>(m: AudioModel<S>) -> AudioNext<S> {
    if !m.open {
        finished(m, Seq::empty(), AudioOutcome::Done)
    } else if m.recording && m.has_recorder {
        asking(m, Seq::empty(), AudioAsk::CollectSamples, AudioStage::CollectingForSwitch)
    } else {
        restarted(AudioModel { recording: false, ..m }, m.recording)
    }
}

/// The recording has ended with the given samples of the recorder.
pub open spec fn stopped<S>(m: AudioModel<S>, samples: Seq<S>) -> AudioNext<S> {
    let ended = AudioModel { buffered: Seq::empty(), recording: false, ..m };
    let outcome = AudioOutcome::Samples(Some(padded(m.buffered + samples, m.silence)));
    if m.mode is OnDemand {
        finished(closed(ended), closing_effects(ended), outcome)
    } else {
        finished(ended, Seq::empty(), outcome)
    }
}

/// A stage waits for samples.
pub open spec fn awaits_samples(stage: AudioStage<Seq<char>>) -> bool {
    stage is CollectingForSwitch || stage is CollectingForStop
}

/// A stage waits for a yes or a no.
pub open spec fn awaits_answer(stage: AudioStage<Seq<char>>) -> bool {
    !(stage is Ready) && !awaits_samples(stage)
}

/// The samples that were collected, none after a failure.
pub open spec fn collected<S>(samples: Option<Seq<S>>) -> Seq<S> {
    match samples {
        Some(s) => s,
        None => Seq::empty(),
    }
}

/// The path of the voice activity model was looked for.
pub open spec fn vad_path_resolved<S>(
    m: AudioModel<S>,
    system_audio: bool,
    then: Then<Seq<char>>,
    found: bool,
) -> AudioNext<S> {
    if !found {
        not_opened(m, then, AudioError::VadPath)
    } else if m.has_recorder {
        opening_recorder(m, system_audio, then)
    } else {
        asking(
            m,
            Seq::empty(),
            AudioAsk::CreateRecorder,
            AudioStage::CreatingRecorder { system_audio, then },
        )
    }
}

/// The recorder is to be opened.
pub open spec fn opening_recorder<S>(
    m: AudioModel<S>,
    system_audio: bool,
    then: Then<Seq<char>>,
) -> AudioNext<S> {
    asking(
        m,
        Seq::empty(),
        AudioAsk::OpenRecorder { system_audio },
        AudioStage::OpeningRecorder { system_audio, then },
    )
}

/// The recorder was to be opened.
pub open spec fn recorder_opened<S>(
    m: AudioModel<S>,
    system_audio: bool,
    then: Then<Seq<char>>,
    success: bool,
) -> AudioNext<S> {
    if success {
        opened(AudioModel { open: true, ..m }, Seq::empty(), then)
    } else if system_audio {
        not_opened(m, then, AudioError::OpenSystemAudio)
    } else {
        not_opened(m, then, AudioError::OpenRecorder)
    }
}

/// The recorder was to take a recording up.
pub open spec fn recording_begun<S>(m: AudioModel<S>, binding: Seq<char>, started: bool) -> AudioNext<
    S,
> {
    finished(
        if started {
            AudioModel { recording: true, binding: Some(binding), ..m }
        } else {
            m
        },
        Seq::empty(),
        AudioOutcome::RecordingStarted(started),
    )
}

/// The recorder was to go on with a recording.
pub open spec fn recording_resumed<S>(m: AudioModel<S>, started: bool) -> AudioNext<S> {
    if started {
        resumed(m, Seq::empty())
    } else {
        finished(
            AudioModel { buffered: Seq::empty(), ..m },
            Seq::empty(),
            AudioOutcome::Failed(AudioError::ResumeRecording),
        )
    }
}

/// The turn that follows a yes or a no.
pub open spec fn answered<S>(before: AudioModel<S>, yes: bool) -> AudioNext<S> {
    let m = AudioModel { stage: AudioStage::Ready, ..before };
    match before.stage {
        AudioStage::CheckingSystemAudio(then) => if yes {
            opening_system_audio(m, then)
        } else {
            opening_microphone(m, Seq::empty(), then)
        },
        AudioStage::StartingCapture(then) => if yes {
            asking(
                m,
                Seq::empty(),
                AudioAsk::ResolveVadPath,
                AudioStage::ResolvingVadPath { system_audio: true, then },
            )
        } else {
            not_opened(m, then, AudioError::StartSystemAudio)
        },
        AudioStage::ResolvingVadPath { system_audio, then } => vad_path_resolved(
            m,
            system_audio,
            then,
            yes,
        ),
        AudioStage::CreatingRecorder { system_audio, then } => if yes {
            opening_recorder(AudioModel { has_recorder: true, ..m }, system_audio, then)
        } else {
            not_opened(m, then, AudioError::CreateRecorder)
        },
        AudioStage::OpeningRecorder { system_audio, then } => recorder_opened(
            m,
            system_audio,
            then,
            yes,
        ),
        AudioStage::StartingRecording(binding) => recording_begun(m, binding, yes),
        AudioStage::ResumingRecording => recording_resumed(m, yes),
        AudioStage::ReadingMuteSetting => finished(
            mute_applied(m, yes),
            mute_effects(m, yes),
            AudioOutcome::Done,
        ),
        AudioStage::EnablingStreaming => finished(
            AudioModel { streaming: m.streaming || yes, ..m },
            Seq::empty(),
            AudioOutcome::StreamingEnabled(yes),
        ),
        _ => finished(m, Seq::empty(), AudioOutcome::Done),
    }
}

/// The turn that follows when the samples were collected.
pub open spec fn samples_taken<S>(before: AudioModel<S>, samples: Option<Seq<S>>) -> AudioNext<S> {
    let m = AudioModel { stage: AudioStage::Ready, ..before };
    if before.stage is CollectingForStop {
        stopped(m, collected(samples))
    } else {
        restarted(
            AudioModel { recording: false, buffered: m.buffered + collected(samples), ..m },
            true,
        )
    }
}

/// The start of [`AudioRecordingManager::update_audio_source`].
pub open spec fn source_updated<S>(m: AudioModel<S>, source: AudioSource) -> AudioNext<S> {
    if m.source == source {
        finished(m, Seq::empty(), AudioOutcome::Done)
    } else {
        switching(AudioModel { source, ..m })
    }
}

/// The start of [`AudioRecordingManager::update_mode`].
pub open spec fn mode_updated<S>(m: AudioModel<S>, mode: MicrophoneMode) -> AudioNext<S> {
    if m.mode is OnDemand && mode is AlwaysOn {
        opening(m, Seq::empty(), Then::SetMode(mode))
    } else if m.mode is AlwaysOn && mode is OnDemand && m.binding is None {
        finished(AudioModel { mode, ..closed(m) }, closing_effects(m), AudioOutcome::Done)
    } else {
        finished(AudioModel { mode, ..m }, Seq::empty(), AudioOutcome::Done)
    }
}

/// The start of [`AudioRecordingManager::try_start_recording`].
pub open spec fn start_tried<S>(m: AudioModel<S>, binding: Seq<char>) -> AudioNext<S> {
    if m.binding is Some {
        finished(m, Seq::empty(), AudioOutcome::RecordingStarted(false))
    } else if m.mode is OnDemand {
        opening(m, Seq::empty(), Then::Record(binding))
    } else {
        starting(m, Seq::empty(), binding)
    }
}

/// The start of [`AudioRecordingManager::enable_audio_streaming`].
pub open spec fn streaming_begun<S>(m: AudioModel<S>) -> AudioNext<S> {
    if m.has_recorder {
        asking(m, Seq::empty(), AudioAsk::EnableStreaming, AudioStage::EnablingStreaming)
    } else {
        finished(m, Seq::empty(), AudioOutcome::StreamingEnabled(false))
    }
}

/// The start of [`AudioRecordingManager::stop_recording`].
pub open spec fn stop_begun<S>(m: AudioModel<S>, binding: Seq<char>) -> AudioNext<S> {
    let idle = AudioModel { binding: None, ..m };
    if m.binding != Some(binding) {
        finished(m, Seq::empty(), AudioOutcome::Samples(None))
    } else if m.has_recorder {
        asking(idle, Seq::empty(), AudioAsk::CollectSamples, AudioStage::CollectingForStop)
    } else {
        stopped(idle, Seq::empty())
    }
}

/// The state after [`AudioRecordingManager::cancel_recording`].
pub open spec fn canceled<S>(m: AudioModel<S>) -> AudioNext<S> {
    let idle = AudioModel { binding: None, recording: false, buffered: Seq::empty(), ..m };
    let discard = if m.has_recorder {
        seq![AudioEffect::DiscardSamples]
    } else {
        Seq::empty()
    };
    if m.binding is None {
        finished(m, Seq::empty(), AudioOutcome::Done)
    } else if m.mode is OnDemand {
        finished(closed(idle), discard + closing_effects(idle), AudioOutcome::Done)
    } else {
        finished(idle, discard, AudioOutcome::Done)
    }
}

/// A turn of an operation: the effects to carry out in order, then the question
/// to answer.
pub struct AudioTurn<S> {
    pub effects: Vec<AudioEffect>,
    pub ask: AudioAsk<Vec<S>>,
}

impl<S> AudioTurn<S> {
    /// This turn, together with the state that it leaves behind.
    pub open spec fn leading_to(self, state: AudioModel<S>) -> AudioNext<S> {
        AudioNext { state, effects: self.effects@, ask: self.ask@ }
    }
}

/// No effects.
fn nothing() -> (r: Vec<AudioEffect>)
    ensures
        r@ == Seq::<AudioEffect>::empty(),
{
    Vec::new()
}

/// One effect.
fn only(effect: AudioEffect) -> (r: Vec<AudioEffect>)
    ensures
        r@ == seq![effect],
{
    let mut r = Vec::new();
    r.push(effect);
    r
}

/// Keeps the recordings: at most one at a time, and none of its samples lost
/// when the source or the device changes under it.
pub struct AudioRecordingManager<S> {
    platform: Platform,
    silence: S,
    state: RecordingState,
    mode: MicrophoneMode,
    audio_source: AudioSource,
    has_recorder: bool,
    has_capture: bool,
    is_open: bool,
    is_recording: bool,
    did_mute: bool,
    streaming: bool,
    buffered_samples: Vec<S>,
    stage: AudioStage<String>,
}

impl<S> View for AudioRecordingManager<S> {
    type V = AudioModel<S>;

    closed spec fn view(&self) -> AudioModel<S> {
        AudioModel {
            platform: self.platform,
            silence: self.silence,
            binding: self.state@,
            mode: self.mode,
            source: self.audio_source,
            has_recorder: self.has_recorder,
            has_capture: self.has_capture,
            open: self.is_open,
            recording: self.is_recording,
            muted: self.did_mute,
            streaming: self.streaming,
            buffered: self.buffered_samples@,
            stage: self.stage@,
        }
    }
}

/// The state of a manager that nothing was asked of yet.
pub open spec fn fresh<S>(settings: AppSettings, platform: Platform, silence: S) -> AudioModel<S> {
    AudioModel {
        platform,
        silence,
        binding: None,
        mode: if settings.always_on_microphone {
            MicrophoneMode::AlwaysOn
        } else {
            MicrophoneMode::OnDemand
        },
        source: settings.audio_source,
        has_recorder: false,
        has_capture: false,
        open: false,
        recording: false,
        muted: false,
        streaming: false,
        buffered: Seq::empty(),
        stage: AudioStage::Ready,
    }
}

/// The first turn of a new manager: a microphone that is always on is opened
/// immediately.
pub open spec fn created<S>(settings: AppSettings, platform: Platform, silence: S) -> AudioNext<S> {
    let m = fresh(settings, platform, silence);
    if m.mode is AlwaysOn {
        opening(m, Seq::empty(), Then::Rest)
    } else {
        finished(m, Seq::empty(), AudioOutcome::Done)
    }
}

impl<S: Copy> AudioRecordingManager<S> {
    /// Starts out idle. The manager is of use once the operation that it starts
    /// with has not failed.
    pub fn new(settings: &AppSettings, platform: Platform, silence: S) -> (r: (Self, AudioTurn<S>))
        ensures
            r.1.leading_to(r.0@) == created(*settings, platform, silence),
    {
        let mut manager = AudioRecordingManager {
            platform,
            silence,
            state: RecordingState::Idle,
            mode: if settings.always_on_microphone {
                MicrophoneMode::AlwaysOn
            } else {
                MicrophoneMode::OnDemand
            },
            audio_source: settings.audio_source,
            has_recorder: false,
            has_capture: false,
            is_open: false,
            is_recording: false,
            did_mute: false,
            streaming: false,
            buffered_samples: Vec::new(),
            stage: AudioStage::Ready,
        };
        let turn = if settings.always_on_microphone {
            manager.open_stream(nothing(), Then::Rest)
        } else {
            manager.finish(nothing(), AudioOutcome::Done)
        };
        (manager, turn)
    }

    /// Whether a recording is in progress.
    pub fn is_recording(&self) -> (b: bool)
        ensures
            b == self@.binding is Some,
    {
        match self.state {
            RecordingState::Recording { .. } => true,
            RecordingState::Idle => false,
        }
    }

    /// Mutes the system where that is wanted, the microphone records alone, and
    /// the stream is open. When the system audio is captured, muting would
    /// silence the source.
    pub fn apply_mute(&mut self, mute_while_recording: bool) -> (effects: Vec<AudioEffect>)
        ensures
            final(self)@ == mute_applied(old(self)@, mute_while_recording),
            effects@ == mute_effects(old(self)@, mute_while_recording),
    {
        if mute_while_recording && self.audio_source == AudioSource::Microphone && self.is_open {
            self.did_mute = true;
            only(AudioEffect::SetMute(true))
        } else {
            nothing()
        }
    }

    /// Unmutes the system, whoever muted it: what is captured must be audible.
    pub fn ensure_unmuted(&mut self) -> (effects: Vec<AudioEffect>)
        ensures
            final(self)@ == (AudioModel { muted: false, ..old(self)@ }),
            effects@ == seq![AudioEffect::SetMute(false)],
    {
        self.did_mute = false;
        only(AudioEffect::SetMute(false))
    }

    /// Unmutes the system if it was muted for the recording.
    pub fn remove_mute(&mut self) -> (effects: Vec<AudioEffect>)
        ensures
            final(self)@ == (AudioModel { muted: false, ..old(self)@ }),
            effects@ == (if old(self)@.muted {
                seq![AudioEffect::SetMute(false)]
            } else {
                Seq::<AudioEffect>::empty()
            }),
    {
        if self.did_mute {
            self.did_mute = false;
            only(AudioEffect::SetMute(false))
        } else {
            nothing()
        }
    }

    /// Opens the stream on the audio source.
    pub fn start_microphone_stream(&mut self) -> (turn: AudioTurn<S>)
        requires
            old(self)@.stage is Ready,
        ensures
            turn.leading_to(final(self)@) == opening(old(self)@, Seq::empty(), Then::Rest),
    {
        self.open_stream(nothing(), Then::Rest)
    }

    /// Closes the stream, if it is open, and ends what depends on it.
    pub fn stop_microphone_stream(&mut self) -> (effects: Vec<AudioEffect>)
        ensures
            final(self)@ == closed(old(self)@),
            effects@ == closing_effects(old(self)@),
    {
        let mut effects: Vec<AudioEffect> = Vec::new();
        if !self.is_open {
            return effects;
        }
        if self.did_mute {
            effects.push(AudioEffect::SetMute(false));
        }
        self.did_mute = false;
        if self.has_recorder {
            if self.is_recording {
                effects.push(AudioEffect::DiscardSamples);
                self.is_recording = false;
            }
            effects.push(AudioEffect::CloseRecorder);
        }
        if self.platform.is_mac() && self.has_capture {
            effects.push(AudioEffect::StopCapture);
        }
        self.is_open = false;
        effects
    }

    /// Changes the audio source. An open stream is restarted on it; a recording
    /// goes on, and keeps the samples that it has.
    pub fn update_audio_source(&mut self, source: AudioSource) -> (turn: AudioTurn<S>)
        requires
            old(self)@.stage is Ready,
        ensures
            turn.leading_to(final(self)@) == source_updated(old(self)@, source),
    {
        if self.audio_source == source {
            return self.finish(nothing(), AudioOutcome::Done);
        }
        self.audio_source = source;
        self.switch_stream()
    }

    /// Takes up another microphone. An open stream is restarted on it; a
    /// recording goes on, and keeps the samples that it has.
    pub fn update_selected_device(&mut self) -> (turn: AudioTurn<S>)
        requires
            old(self)@.stage is Ready,
        ensures
            turn.leading_to(final(self)@) == switching(old(self)@),
    {
        self.switch_stream()
    }

    /// Changes when the stream is open.
    pub fn update_mode(&mut self, new_mode: MicrophoneMode) -> (turn: AudioTurn<S>)
        requires
            old(self)@.stage is Ready,
        ensures
            turn.leading_to(final(self)@) == mode_updated(old(self)@, new_mode),
    {
        match (self.mode, new_mode) {
            (MicrophoneMode::OnDemand, MicrophoneMode::AlwaysOn) => self.open_stream(
                nothing(),
                Then::SetMode(new_mode),
            ),
            (MicrophoneMode::AlwaysOn, MicrophoneMode::OnDemand) => {
                let effects = if self.is_recording() {
                    nothing()
                } else {
                    self.stop_microphone_stream()
                };
                self.mode = new_mode;
                self.finish(effects, AudioOutcome::Done)
            },
            _ => {
                self.mode = new_mode;
                self.finish(nothing(), AudioOutcome::Done)
            },
        }
    }

    /// Starts a recording for the binding, unless there is one already.
    pub fn try_start_recording(&mut self, binding_id: &str) -> (turn: AudioTurn<S>)
        requires
            old(self)@.stage is Ready,
        ensures
            turn.leading_to(final(self)@) == start_tried(old(self)@, binding_id@),
    {
        if self.is_recording() {
            return self.finish(nothing(), AudioOutcome::RecordingStarted(false));
        }
        match self.mode {
            MicrophoneMode::OnDemand => self.open_stream(
                nothing(),
                Then::Record(binding_id.to_owned()),
            ),
            MicrophoneMode::AlwaysOn => self.start_recorder(nothing(), binding_id.to_owned()),
        }
    }

    /// Ends the recording of the binding and hands out its samples: those from
    /// before a change of the stream first. A very short recording is filled up.
    pub fn stop_recording(&mut self, binding_id: &str) -> (turn: AudioTurn<S>)
        requires
            old(self)@.stage is Ready,
        ensures
            turn.leading_to(final(self)@) == stop_begun(old(self)@, binding_id@),
    {
        let matching = match &self.state {
            RecordingState::Recording { binding_id: active } => same(active.as_str(), binding_id),
            RecordingState::Idle => false,
        };
        if !matching {
            return self.finish(nothing(), AudioOutcome::Samples(None));
        }
        self.state = RecordingState::Idle;
        if self.has_recorder {
            self.ask(nothing(), AudioAsk::CollectSamples, AudioStage::CollectingForStop)
        } else {
            self.end_recording(Vec::new())
        }
    }

    /// Ends a recording, if there is one, and throws its samples away.
    pub fn cancel_recording(&mut self) -> (turn: AudioTurn<S>)
        requires
            old(self)@.stage is Ready,
        ensures
            turn.leading_to(final(self)@) == canceled(old(self)@),
    {
        if !self.is_recording() {
            return self.finish(nothing(), AudioOutcome::Done);
        }
        self.state = RecordingState::Idle;
        let mut effects = if self.has_recorder {
            only(AudioEffect::DiscardSamples)
        } else {
            nothing()
        };
        self.buffered_samples = Vec::new();
        self.is_recording = false;
        match self.mode {
            MicrophoneMode::OnDemand => {
                let mut closing = self.stop_microphone_stream();
                effects.append(&mut closing);
            },
            MicrophoneMode::AlwaysOn => {},
        }
        self.finish(effects, AudioOutcome::Done)
    }

    /// Has the audio streamed to a consumer.
    pub fn enable_audio_streaming(&mut self) -> (turn: AudioTurn<S>)
        requires
            old(self)@.stage is Ready,
        ensures
            turn.leading_to(final(self)@) == streaming_begun(old(self)@),
    {
        if self.has_recorder {
            self.ask(nothing(), AudioAsk::EnableStreaming, AudioStage::EnablingStreaming)
        } else {
            self.finish(nothing(), AudioOutcome::StreamingEnabled(false))
        }
    }

    /// Has the audio streamed no longer.
    pub fn disable_audio_streaming(&mut self) -> (effects: Vec<AudioEffect>)
        ensures
            final(self)@ == (AudioModel { streaming: false, ..old(self)@ }),
            effects@ == (if old(self)@.has_recorder {
                seq![AudioEffect::DisableStreaming]
            } else {
                Seq::<AudioEffect>::empty()
            }),
    {
        self.streaming = false;
        if self.has_recorder {
            only(AudioEffect::DisableStreaming)
        } else {
            nothing()
        }
    }

    /// Goes on with the operation that is under way, once its question was
    /// answered.
    pub fn answer(&mut self, yes: bool) -> (turn: AudioTurn<S>)
        requires
            awaits_answer(old(self)@.stage),
        ensures
            turn.leading_to(final(self)@) == answered(old(self)@, yes),
    {
        let mut stage = AudioStage::Ready;
        core::mem::swap(&mut stage, &mut self.stage);
        match stage {
            AudioStage::CheckingSystemAudio(then) => {
                if yes {
                    self.open_system_audio(then)
                } else {
                    self.open_microphone(nothing(), then)
                }
            },
            AudioStage::StartingCapture(then) => {
                if yes {
                    self.ask(
                        nothing(),
                        AudioAsk::ResolveVadPath,
                        AudioStage::ResolvingVadPath { system_audio: true, then },
                    )
                } else {
                    self.give_up_opening(then, AudioError::StartSystemAudio)
                }
            },
            AudioStage::ResolvingVadPath { system_audio, then } => self.use_vad_path(
                system_audio,
                then,
                yes,
            ),
            AudioStage::CreatingRecorder { system_audio, then } => {
                if yes {
                    self.has_recorder = true;
                    self.open_recorder(system_audio, then)
                } else {
                    self.give_up_opening(then, AudioError::CreateRecorder)
                }
            },
            AudioStage::OpeningRecorder { system_audio, then } => self.use_recorder(
                system_audio,
                then,
                yes,
            ),
            AudioStage::StartingRecording(binding) => self.begin_recording(binding, yes),
            AudioStage::ResumingRecording => self.resume_recording(yes),
            AudioStage::ReadingMuteSetting => {
                let effects = self.apply_mute(yes);
                self.finish(effects, AudioOutcome::Done)
            },
            AudioStage::EnablingStreaming => {
                self.streaming = self.streaming || yes;
                self.finish(nothing(), AudioOutcome::StreamingEnabled(yes))
            },
            _ => self.finish(nothing(), AudioOutcome::Done),
        }
    }

    /// Goes on with the operation that is under way, once the recorder has
    /// handed its samples out, or has failed to.
    pub fn take_samples(&mut self, samples: Option<Vec<S>>) -> (turn: AudioTurn<S>)
        requires
            awaits_samples(old(self)@.stage),
        ensures
            turn.leading_to(final(self)@) == samples_taken(
                old(self)@,
                match samples {
                    Some(s) => Some(s@),
                    None => None,
                },
            ),
    {
        let mut samples = match samples {
            Some(s) => s,
            None => Vec::new(),
        };
        let mut stage = AudioStage::Ready;
        core::mem::swap(&mut stage, &mut self.stage);
        match stage {
            AudioStage::CollectingForStop => self.end_recording(samples),
            _ => {
                self.buffered_samples.append(&mut samples);
                self.is_recording = false;
                self.restart_stream(true)
            },
        }
    }

    fn use_vad_path(&mut self, system_audio: bool, then: Then<String>, found: bool) -> (turn:
        AudioTurn<S>)
        ensures
            turn.leading_to(final(self)@) == vad_path_resolved(
                old(self)@,
                system_audio,
                then@,
                found,
            ),
    {
        if !found {
            self.give_up_opening(then, AudioError::VadPath)
        } else if self.has_recorder {
            self.open_recorder(system_audio, then)
        } else {
            self.ask(
                nothing(),
                AudioAsk::CreateRecorder,
                AudioStage::CreatingRecorder { system_audio, then },
            )
        }
    }

    fn use_recorder(&mut self, system_audio: bool, then: Then<String>, success: bool) -> (turn:
        AudioTurn<S>)
        ensures
            turn.leading_to(final(self)@) == recorder_opened(
                old(self)@,
                system_audio,
                then@,
                success,
            ),
    {
        if success {
            self.is_open = true;
            self.stream_opened(nothing(), then)
        } else if system_audio {
            self.give_up_opening(then, AudioError::OpenSystemAudio)
        } else {
            self.give_up_opening(then, AudioError::OpenRecorder)
        }
    }

    fn begin_recording(&mut self, binding: String, started: bool) -> (turn: AudioTurn<S>)
        ensures
            turn.leading_to(final(self)@) == recording_begun(old(self)@, binding@, started),
    {
        if started {
            self.is_recording = true;
            self.state = RecordingState::Recording { binding_id: binding };
        }
        self.finish(nothing(), AudioOutcome::RecordingStarted(started))
    }

    fn resume_recording(&mut self, started: bool) -> (turn: AudioTurn<S>)
        ensures
            turn.leading_to(final(self)@) == recording_resumed(old(self)@, started),
    {
        if started {
            self.mark_resumed(nothing())
        } else {
            self.buffered_samples = Vec::new();
            self.finish(nothing(), AudioOutcome::Failed(AudioError::ResumeRecording))
        }
    }

    fn ask(
        &mut self,
        effects: Vec<AudioEffect>,
        ask: AudioAsk<Vec<S>>,
        stage: AudioStage<String>,
    ) -> (turn: AudioTurn<S>)
        ensures
            turn.leading_to(final(self)@) == asking(old(self)@, effects@, ask@, stage@),
    {
        self.stage = stage;
        AudioTurn { effects, ask }
    }

    fn finish(&mut self, effects: Vec<AudioEffect>, outcome: AudioOutcome<Vec<S>>) -> (turn:
        AudioTurn<S>)
        ensures
            turn.leading_to(final(self)@) == finished(old(self)@, effects@, outcome@),
    {
        self.stage = AudioStage::Ready;
        AudioTurn { effects, ask: AudioAsk::Finished(outcome) }
    }

    fn open_stream(&mut self, effects: Vec<AudioEffect>, then: Then<String>) -> (turn: AudioTurn<S>)
        ensures
            turn.leading_to(final(self)@) == opening(old(self)@, effects@, then@),
    {
        match self.audio_source {
            AudioSource::SystemAudio if self.platform.is_mac() => self.ask(
                effects,
                AudioAsk::IsSystemAudioAvailable,
                AudioStage::CheckingSystemAudio(then),
            ),
            _ => self.open_microphone(effects, then),
        }
    }

    fn open_microphone(&mut self, effects: Vec<AudioEffect>, then: Then<String>) -> (turn:
        AudioTurn<S>)
        ensures
            turn.leading_to(final(self)@) == opening_microphone(old(self)@, effects@, then@),
    {
        if self.is_open {
            self.stream_opened(effects, then)
        } else {
            self.did_mute = false;
            self.ask(
                effects,
                AudioAsk::ResolveVadPath,
                AudioStage::ResolvingVadPath { system_audio: false, then },
            )
        }
    }

    fn open_system_audio(&mut self, then: Then<String>) -> (turn: AudioTurn<S>)
        ensures
            turn.leading_to(final(self)@) == opening_system_audio(old(self)@, then@),
    {
        if self.is_open {
            self.stream_opened(nothing(), then)
        } else {
            self.did_mute = false;
            self.has_capture = true;
            self.ask(
                only(AudioEffect::SetMute(false)),
                AudioAsk::StartCapture,
                AudioStage::StartingCapture(then),
            )
        }
    }

    fn open_recorder(&mut self, system_audio: bool, then: Then<String>) -> (turn: AudioTurn<S>)
        ensures
            turn.leading_to(final(self)@) == opening_recorder(old(self)@, system_audio, then@),
    {
        self.ask(
            nothing(),
            AudioAsk::OpenRecorder { system_audio },
            AudioStage::OpeningRecorder { system_audio, then },
        )
    }

    fn give_up_opening(&mut self, then: Then<String>, error: AudioError) -> (turn: AudioTurn<S>)
        ensures
            turn.leading_to(final(self)@) == not_opened(old(self)@, then@, error),
    {
        match then {
            Then::Record(_) => self.finish(nothing(), AudioOutcome::RecordingStarted(false)),
            _ => self.finish(nothing(), AudioOutcome::Failed(error)),
        }
    }

    fn stream_opened(&mut self, effects: Vec<AudioEffect>, then: Then<String>) -> (turn: AudioTurn<
        S,
    >)
        ensures
            turn.leading_to(final(self)@) == opened(old(self)@, effects@, then@),
    {
        match then {
            Then::Rest => self.finish(effects, AudioOutcome::Done),
            Then::SetMode(mode) => {
                self.mode = mode;
                self.finish(effects, AudioOutcome::Done)
            },
            Then::Record(binding) => self.start_recorder(effects, binding),
            Then::Resume { was_recording } => {
                let mut effects = effects;
                if self.streaming && self.has_recorder {
                    effects.push(AudioEffect::ReconnectStreaming);
                }
                if !was_recording {
                    self.finish(effects, AudioOutcome::Done)
                } else if self.has_recorder {
                    self.ask(effects, AudioAsk::StartRecorder, AudioStage::ResumingRecording)
                } else {
                    self.mark_resumed(effects)
                }
            },
        }
    }

    fn start_recorder(&mut self, effects: Vec<AudioEffect>, binding: String) -> (turn: AudioTurn<S>)
        ensures
            turn.leading_to(final(self)@) == starting(old(self)@, effects@, binding@),
    {
        if self.has_recorder {
            self.ask(effects, AudioAsk::StartRecorder, AudioStage::StartingRecording(binding))
        } else {
            self.finish(effects, AudioOutcome::RecordingStarted(false))
        }
    }

    fn mark_resumed(&mut self, effects: Vec<AudioEffect>) -> (turn: AudioTurn<S>)
        ensures
            turn.leading_to(final(self)@) == resumed(old(self)@, effects@),
    {
        self.is_recording = true;
        self.ask(effects, AudioAsk::ReadMuteSetting, AudioStage::ReadingMuteSetting)
    }

    fn restart_stream(&mut self, was_recording: bool) -> (turn: AudioTurn<S>)
        ensures
            turn.leading_to(final(self)@) == restarted(old(self)@, was_recording),
    {
        let effects = self.stop_microphone_stream();
        self.open_stream(effects, Then::Resume { was_recording })
    }

    fn switch_stream(&mut self) -> (turn: AudioTurn<S>)
        ensures
            turn.leading_to(final(self)@) == switching(old(self)@),
    {
        if !self.is_open {
            return self.finish(nothing(), AudioOutcome::Done);
        }
        let was_recording = self.is_recording;
        if was_recording && self.has_recorder {
            return self.ask(nothing(), AudioAsk::CollectSamples, AudioStage::CollectingForSwitch);
        }
        self.is_recording = false;
        self.restart_stream(was_recording)
    }

    fn end_recording(&mut self, samples: Vec<S>) -> (turn: AudioTurn<S>)
        ensures
            turn.leading_to(final(self)@) == stopped(old(self)@, samples@),
    {
        let mut current = samples;
        let mut all: Vec<S> = Vec::new();
        core::mem::swap(&mut all, &mut self.buffered_samples);
        all.append(&mut current);
        self.is_recording = false;
        let effects = match self.mode {
            MicrophoneMode::OnDemand => self.stop_microphone_stream(),
            MicrophoneMode::AlwaysOn => nothing(),
        };
        let all = pad_short(all, self.silence);
        self.finish(effects, AudioOutcome::Samples(Some(all)))
    }
}

} // verus!
