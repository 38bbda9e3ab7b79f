//! What happens when the transcription shortcut is pressed.
//!
//! Like the flow that follows the release, this one alternates between
//! effects and questions.

use vstd::prelude::*;

use crate::actions::stop::TrayIconState;
use crate::settings::{AppSettings, AudioSource, EngineType, Platform};

verus! {

/// The text that a live translation follows.
#[derive(Clone, Copy, Debug, PartialEq, Eq, Structural)]
pub enum TranslatorSource {
    /// The text of the session that listens to the microphone.
    Session,
    /// The merged text of the coordinator.
    Coordinator,
}

/// An effect of the flow; `T` is the type of texts.
pub enum StartEffect<T> {
    InitiateModelLoad,
    SetTray(TrayIconState),
    ShowRecordingOverlay,
    /// The overlay for live text, with or without a panel for a translation.
    ShowStreamingOverlay { translation_panel: bool },
    /// In a thread of its own: rest, play the start sound to its end, then
    /// mute the system if the settings say so.
    FeedbackThenMute { delay_ms: u64 },
    RegisterCancelShortcut,
    /// Unmute the system, whoever muted it.
    EnsureUnmuted,
    /// Resample the captured system audio for the session that listens to it.
    StartSystemBridge { sample_rate: u32, frame_ms: u64 },
    /// Start a session on the streamed microphone. A silent one shows nothing.
    StartSession { api_key: T, silent: bool },
    /// Start a silent session on the resampled system audio.
    StartSystemSession { api_key: T },
    /// Start the coordinator of the two sessions.
    StartCoordinator,
    StartTranslator { api_key: T, source: TranslatorSource },
    /// Put the session of the microphone where the other flows find it.
    StoreSession,
    /// Put the session of the system audio, the coordinator and the capture
    /// where the other flows find them.
    StoreDualStream,
    /// Start an incremental session on the streamed microphone, and put it
    /// where the other flows find it.
    StartIncrementalSession,
    DisableAudioStreaming,
}

/// A question of the flow; `T` is the type of texts.
pub enum StartAsk<T> {
    /// Which engine runs the model? `None` for a model that is not known.
    ModelEngine { model: T },
    /// Start recording for the binding. Did it start?
    TryStartRecording { binding: T },
    /// Have the recorder stream its audio. Does it?
    EnableAudioStreaming,
    /// Start capturing the system audio. Did it start?
    StartSystemCapture,
    /// Resolve the path of the voice activity model. Is there one?
    ResolveVadPath,
    /// Nothing: the flow has ended.
    Finished,
}

/// An answer to a [`StartAsk`].
#[derive(Clone, Copy, Debug, PartialEq, Eq, Structural)]
pub enum StartReply {
    Engine(Option<EngineType>),
    RecordingStarted(bool),
    StreamingEnabled(bool),
    CaptureStarted(bool),
    VadPathResolved(bool),
}

/// How a recording is transcribed.
#[derive(Clone, Copy, Debug, PartialEq, Eq, Structural)]
pub enum TranscriptionMode {
    /// After the recording.
    Batch,
    /// In segments, by a local model, while the user speaks.
    Incremental,
    /// By the Mistral service, while the user speaks.
    SingleStream,
    /// The microphone and the system audio, each by the Mistral service.
    DualStream,
}

/// What the flow waits for.
#[derive(Clone, Copy, Debug, PartialEq, Eq, Structural)]
pub enum StartStage {
    AskingEngine,
    StartingRecording(TranscriptionMode),
    EnablingStreaming(TranscriptionMode),
    StartingCapture,
    ResolvingVadPath,
    Finished,
}

impl View for StartEffect<String> {
    type V = StartEffect<Seq<char>>;

    open spec fn view(&self) -> StartEffect<Seq<char>> {
        match self {
            StartEffect::InitiateModelLoad => StartEffect::InitiateModelLoad,
            StartEffect::SetTray(icon) => StartEffect::SetTray(*icon),
            StartEffect::ShowRecordingOverlay => StartEffect::ShowRecordingOverlay,
            StartEffect::ShowStreamingOverlay {
                translation_panel,
            } => StartEffect::ShowStreamingOverlay { translation_panel: *translation_panel },
            StartEffect::FeedbackThenMute { delay_ms } => StartEffect::FeedbackThenMute {
                delay_ms: *delay_ms,
            },
            StartEffect::RegisterCancelShortcut => StartEffect::RegisterCancelShortcut,
            StartEffect::EnsureUnmuted => StartEffect::EnsureUnmuted,
            StartEffect::StartSystemBridge {
                sample_rate,
                frame_ms,
            } => StartEffect::StartSystemBridge { sample_rate: *sample_rate, frame_ms: *frame_ms },
            StartEffect::StartSession { api_key, silent } => StartEffect::StartSession {
                api_key: api_key@,
                silent: *silent,
            },
            StartEffect::StartSystemSession { api_key } => StartEffect::StartSystemSession {
                api_key: api_key@,
            },
            StartEffect::StartCoordinator => StartEffect::StartCoordinator,
            StartEffect::StartTranslator { api_key, source } => StartEffect::StartTranslator {
                api_key: api_key@,
                source: *source,
            },
            StartEffect::StoreSession => StartEffect::StoreSession,
            StartEffect::StoreDualStream => StartEffect::StoreDualStream,
            StartEffect::StartIncrementalSession => StartEffect::StartIncrementalSession,
            StartEffect::DisableAudioStreaming => StartEffect::DisableAudioStreaming,
        }
    }
}

impl View for StartAsk<String> {
    type V = StartAsk<Seq<char>>;

    open spec fn view(&self) -> StartAsk<Seq<char>> {
        match self {
            StartAsk::ModelEngine { model } => StartAsk::ModelEngine { model: model@ },
            StartAsk::TryStartRecording { binding } => StartAsk::TryStartRecording {
                binding: binding@,
            },
            StartAsk::EnableAudioStreaming => StartAsk::EnableAudioStreaming,
            StartAsk::StartSystemCapture => StartAsk::StartSystemCapture,
            StartAsk::ResolveVadPath => StartAsk::ResolveVadPath,
            StartAsk::Finished => StartAsk::Finished,
        }
    }
}

/// The effects in terms of mathematical texts.
pub open spec fn start_effects_of(effects: Seq<StartEffect<String>>) -> Seq<StartEffect<Seq<char>>> {
    effects.map_values(|e: StartEffect<String>| e@)
}

/// A turn of the flow: the effects to carry out, the question to answer, and
/// the stage that waits for the answer.
pub struct StartTurnModel {
    pub effects: Seq<StartEffect<Seq<char>>>,
    pub ask: StartAsk<Seq<char>>,
    pub stage: StartStage,
}

/// What does not change during the flow.
pub struct StartContext {
    pub binding: Seq<char>,
    pub platform: Platform,
    pub settings: AppSettings,
}

/// Engines that are fast enough to transcribe while the user speaks.
pub open spec fn incremental_engine(engine: Option<EngineType>) -> bool {
    engine == Some(EngineType::Parakeet) || engine == Some(EngineType::Moonshine)
}

/// How a recording is transcribed under the given settings.
pub open spec fn mode_of(settings: AppSettings, incremental: bool) -> TranscriptionMode {
    if settings.streams_to_mistral() {
        if settings.audio_source is Mixed {
            TranscriptionMode::DualStream
        } else {
            TranscriptionMode::SingleStream
        }
    } else if incremental {
        TranscriptionMode::Incremental
    } else {
        TranscriptionMode::Batch
    }
}

/// The overlay for a way of transcribing.
pub open spec fn overlay_of(mode: TranscriptionMode) -> StartEffect<Seq<char>> {
    match mode {
        TranscriptionMode::SingleStream | TranscriptionMode::DualStream => {
            StartEffect::ShowStreamingOverlay { translation_panel: true }
        },
        TranscriptionMode::Incremental => StartEffect::ShowStreamingOverlay {
            translation_panel: false,
        },
        TranscriptionMode::Batch => StartEffect::ShowRecordingOverlay,
    }
}

/// The way of transcribing is known: the user sees it, and the recording is to
/// start. With the microphone always on, the start sound does not wait for it.
pub open spec fn mode_known(
    c: StartContext,
    before: Seq<StartEffect<Seq<char>>>,
    mode: TranscriptionMode,
) -> StartTurnModel {
    let shown = before + seq![
        StartEffect::SetTray(TrayIconState::Recording),
        overlay_of(mode),
    ];
    StartTurnModel {
        effects: if c.settings.always_on_microphone {
            shown.push(StartEffect::FeedbackThenMute { delay_ms: 0 })
        } else {
            shown
        },
        ask: StartAsk::TryStartRecording { binding: c.binding },
        stage: StartStage::StartingRecording(mode),
    }
}

/// The end of the flow.
pub open spec fn start_ended(effects: Seq<StartEffect<Seq<char>>>) -> StartTurnModel {
    StartTurnModel { effects, ask: StartAsk::Finished, stage: StartStage::Finished }
}

/// The recording has started.
pub open spec fn recording_started(c: StartContext, mode: TranscriptionMode) -> StartTurnModel {
    let effects = (if c.settings.always_on_microphone {
        Seq::<StartEffect<Seq<char>>>::empty()
    } else {
        seq![StartEffect::FeedbackThenMute { delay_ms: 100 }]
    }).push(StartEffect::RegisterCancelShortcut);
    if mode is Batch || (mode is DualStream && !c.platform.mac()) {
        start_ended(effects)
    } else {
        StartTurnModel {
            effects: if mode is DualStream {
                effects.push(StartEffect::EnsureUnmuted)
            } else {
                effects
            },
            ask: StartAsk::EnableAudioStreaming,
            stage: StartStage::EnablingStreaming(mode),
        }
    }
}

/// The start of a live translation, if the settings want one.
pub open spec fn translator_of(settings: AppSettings, source: TranslatorSource) -> Seq<
    StartEffect<Seq<char>>,
> {
    if settings.streaming_translation_enabled {
        seq![StartEffect::StartTranslator { api_key: settings.mistral_api_key@, source }]
    } else {
        Seq::empty()
    }
}

/// A session on the microphone alone.
pub open spec fn single_stream(settings: AppSettings) -> Seq<StartEffect<Seq<char>>> {
    seq![StartEffect::StartSession { api_key: settings.mistral_api_key@, silent: false }]
        + translator_of(settings, TranslatorSource::Session) + seq![
        StartEffect::<Seq<char>>::StoreSession,
    ]
}

/// A session on each of the two streams, and a coordinator.
pub open spec fn dual_stream(settings: AppSettings) -> Seq<StartEffect<Seq<char>>> {
    seq![
        StartEffect::StartSystemBridge { sample_rate: 16000, frame_ms: 30 },
        StartEffect::StartSession { api_key: settings.mistral_api_key@, silent: true },
        StartEffect::StartSystemSession { api_key: settings.mistral_api_key@ },
        StartEffect::StartCoordinator,
    ] + translator_of(settings, TranslatorSource::Coordinator) + seq![
        StartEffect::<Seq<char>>::StoreSession,
        StartEffect::<Seq<char>>::StoreDualStream,
    ]
}

/// Whether a reply answers the question of a stage.
pub open spec fn start_answers(stage: StartStage, reply: StartReply) -> bool {
    match stage {
        StartStage::AskingEngine => reply is Engine,
        StartStage::StartingRecording(_) => reply is RecordingStarted,
        StartStage::EnablingStreaming(_) => reply is StreamingEnabled,
        StartStage::StartingCapture => reply is CaptureStarted,
        StartStage::ResolvingVadPath => reply is VadPathResolved,
        StartStage::Finished => false,
    }
}

/// The first turn.
pub open spec fn first_turn(c: StartContext) -> StartTurnModel {
    let load = seq![StartEffect::<Seq<char>>::InitiateModelLoad];
    if c.settings.realtime_transcription_enabled {
        StartTurnModel {
            effects: load,
            ask: StartAsk::ModelEngine { model: c.settings.selected_model@ },
            stage: StartStage::AskingEngine,
        }
    } else {
        mode_known(c, load, mode_of(c.settings, false))
    }
}

/// The turn that follows a reply.
pub open spec fn start_turn(c: StartContext, stage: StartStage, reply: StartReply) -> StartTurnModel {
    match (stage, reply) {
        (StartStage::AskingEngine, StartReply::Engine(engine)) => mode_known(
            c,
            Seq::empty(),
            mode_of(c.settings, incremental_engine(engine)),
        ),
        (StartStage::StartingRecording(mode), StartReply::RecordingStarted(true)) => {
            recording_started(c, mode)
        },
        (
            StartStage::EnablingStreaming(mode),
            StartReply::StreamingEnabled(true),
        ) => match mode {
            TranscriptionMode::DualStream => StartTurnModel {
                effects: Seq::empty(),
                ask: StartAsk::StartSystemCapture,
                stage: StartStage::StartingCapture,
            },
            TranscriptionMode::SingleStream => start_ended(single_stream(c.settings)),
            TranscriptionMode::Incremental => StartTurnModel {
                effects: Seq::empty(),
                ask: StartAsk::ResolveVadPath,
                stage: StartStage::ResolvingVadPath,
            },
            TranscriptionMode::Batch => start_ended(Seq::empty()),
        },
        (StartStage::StartingCapture, StartReply::CaptureStarted(started)) => start_ended(
            if started {
                dual_stream(c.settings)
            } else {
                single_stream(c.settings)
            },
        ),
        (StartStage::ResolvingVadPath, StartReply::VadPathResolved(found)) => start_ended(
            if found {
                seq![StartEffect::<Seq<char>>::StartIncrementalSession]
            } else {
                seq![StartEffect::<Seq<char>>::DisableAudioStreaming]
            },
        ),
        _ => start_ended(Seq::empty()),
    }
}

/// A turn of the flow: carry out the effects in order, then answer.
pub struct StartTurn {
    pub effects: Vec<StartEffect<String>>,
    pub ask: StartAsk<String>,
}

/// The flow that follows the press of the transcription shortcut.
pub struct TranscribeStart {
    binding_id: String,
    platform: Platform,
    settings: AppSettings,
    stage: StartStage,
}

struct StartNext {
    effects: Vec<StartEffect<String>>,
    ask: StartAsk<String>,
    stage: StartStage,
}

impl View for StartNext {
    type V = StartTurnModel;

    closed spec fn view(&self) -> StartTurnModel {
        StartTurnModel {
            effects: start_effects_of(self.effects@),
            ask: self.ask@,
            stage: self.stage,
        }
    }
}

fn no_effects() -> (r: Vec<StartEffect<String>>)
    ensures
        start_effects_of(r@) == Seq::<StartEffect<Seq<char>>>::empty(),
{
    let r: Vec<StartEffect<String>> = Vec::new();
    proof {
        assert(start_effects_of(r@) =~= Seq::<StartEffect<Seq<char>>>::empty());
    }
    r
}

fn one_effect(effect: StartEffect<String>) -> (r: Vec<StartEffect<String>>)
    ensures
        start_effects_of(r@) == seq![effect@],
{
    let r: Vec<StartEffect<String>> = vec![effect];
    proof {
        assert(start_effects_of(r@) =~= seq![effect@]);
    }
    r
}

fn start_end(effects: Vec<StartEffect<String>>) -> (r: StartNext)
    ensures
        r@ == start_ended(start_effects_of(effects@)),
{
    StartNext { effects, ask: StartAsk::Finished, stage: StartStage::Finished }
}

impl TranscribeStart {
    /// What does not change during the flow.
    pub closed spec fn context(self) -> StartContext {
        StartContext {
            binding: self.binding_id@,
            platform: self.platform,
            settings: self.settings,
        }
    }

    /// What the flow waits for.
    pub closed spec fn waiting(self) -> StartStage {
        self.stage
    }

    /// Starts the flow.
    pub fn begin(binding_id: &str, platform: Platform, settings: AppSettings) -> (r: (
        TranscribeStart,
        StartTurn,
    ))
        ensures
            r.0.context() == (StartContext { binding: binding_id@, platform, settings }),
            ({
                let turn = first_turn(r.0.context());
                &&& r.0.waiting() == turn.stage
                &&& start_effects_of(r.1.effects@) == turn.effects
                &&& r.1.ask@ == turn.ask
            }),
    {
        let mut flow = TranscribeStart {
            binding_id: binding_id.to_owned(),
            platform,
            settings,
            stage: StartStage::Finished,
        };
        let load = one_effect(StartEffect::InitiateModelLoad);
        let next = if flow.settings.realtime_transcription_enabled {
            StartNext {
                effects: load,
                ask: StartAsk::ModelEngine { model: flow.settings.selected_model.clone() },
                stage: StartStage::AskingEngine,
            }
        } else {
            let mode = flow.mode(false);
            flow.know_mode(load, mode)
        };
        flow.stage = next.stage;
        (flow, StartTurn { effects: next.effects, ask: next.ask })
    }

    /// Goes on with the reply to the last question.
    pub fn step(&mut self, reply: StartReply) -> (r: StartTurn)
        requires
            start_answers(old(self).waiting(), reply),
        ensures
            final(self).context() == old(self).context(),
            ({
                let turn = start_turn(old(self).context(), old(self).waiting(), reply);
                &&& final(self).waiting() == turn.stage
                &&& start_effects_of(r.effects@) == turn.effects
                &&& r.ask@ == turn.ask
            }),
    {
        let next = match (self.stage, reply) {
            (StartStage::AskingEngine, StartReply::Engine(engine)) => {
                let incremental = match engine {
                    Some(EngineType::Parakeet) | Some(EngineType::Moonshine) => true,
                    _ => false,
                };
                let mode = self.mode(incremental);
                self.know_mode(no_effects(), mode)
            },
            (StartStage::StartingRecording(mode), StartReply::RecordingStarted(true)) => {
                self.start_recording(mode)
            },
            (StartStage::EnablingStreaming(mode), StartReply::StreamingEnabled(true)) => {
                match mode {
                    TranscriptionMode::DualStream => StartNext {
                        effects: no_effects(),
                        ask: StartAsk::StartSystemCapture,
                        stage: StartStage::StartingCapture,
                    },
                    TranscriptionMode::SingleStream => start_end(self.start_single_stream()),
                    TranscriptionMode::Incremental => StartNext {
                        effects: no_effects(),
                        ask: StartAsk::ResolveVadPath,
                        stage: StartStage::ResolvingVadPath,
                    },
                    TranscriptionMode::Batch => start_end(no_effects()),
                }
            },
            (StartStage::StartingCapture, StartReply::CaptureStarted(started)) => {
                if started {
                    start_end(self.start_dual_stream())
                } else {
                    start_end(self.start_single_stream())
                }
            },
            (StartStage::ResolvingVadPath, StartReply::VadPathResolved(found)) => {
                if found {
                    start_end(one_effect(StartEffect::StartIncrementalSession))
                } else {
                    start_end(one_effect(StartEffect::DisableAudioStreaming))
                }
            },
            _ => start_end(no_effects()),
        };
        self.stage = next.stage;
        StartTurn { effects: next.effects, ask: next.ask }
    }

    fn mode(&self, incremental: bool) -> (r: TranscriptionMode)
        ensures
            r == mode_of(self.context().settings, incremental),
    {
        if self.settings.is_mistral_api() {
            match self.settings.audio_source {
                AudioSource::Mixed => TranscriptionMode::DualStream,
                _ => TranscriptionMode::SingleStream,
            }
        } else if incremental {
            TranscriptionMode::Incremental
        } else {
            TranscriptionMode::Batch
        }
    }

    fn know_mode(&self, before: Vec<StartEffect<String>>, mode: TranscriptionMode) -> (r: StartNext)
        ensures
            r@ == mode_known(self.context(), start_effects_of(before@), mode),
    {
        let mut effects = before;
        effects.push(StartEffect::SetTray(TrayIconState::Recording));
        effects.push(
            match mode {
                TranscriptionMode::SingleStream | TranscriptionMode::DualStream => {
                    StartEffect::ShowStreamingOverlay { translation_panel: true }
                },
                TranscriptionMode::Incremental => StartEffect::ShowStreamingOverlay {
                    translation_panel: false,
                },
                TranscriptionMode::Batch => StartEffect::ShowRecordingOverlay,
            },
        );
        if self.settings.always_on_microphone {
            effects.push(StartEffect::FeedbackThenMute { delay_ms: 0 });
        }
        let r = StartNext {
            effects,
            ask: StartAsk::TryStartRecording { binding: self.binding_id.clone() },
            stage: StartStage::StartingRecording(mode),
        };
        proof {
            assert(r@.effects =~= mode_known(
                self.context(),
                start_effects_of(before@),
                mode,
            ).effects);
        }
        r
    }

    fn start_recording(&self, mode: TranscriptionMode) -> (r: StartNext)
        ensures
            r@ == recording_started(self.context(), mode),
    {
        let mut effects: Vec<StartEffect<String>> = Vec::new();
        if !self.settings.always_on_microphone {
            effects.push(StartEffect::FeedbackThenMute { delay_ms: 100 });
        }
        effects.push(StartEffect::RegisterCancelShortcut);
        let (goes_on, dual) = match mode {
            TranscriptionMode::Batch => (false, false),
            TranscriptionMode::DualStream => (self.platform.is_mac(), true),
            _ => (true, false),
        };
        if goes_on && dual {
            effects.push(StartEffect::EnsureUnmuted);
        }
        proof {
            assert(start_effects_of(effects@) =~= recording_started(self.context(), mode).effects);
        }
        if goes_on {
            StartNext {
                effects,
                ask: StartAsk::EnableAudioStreaming,
                stage: StartStage::EnablingStreaming(mode),
            }
        } else {
            start_end(effects)
        }
    }

    fn push_translator(&self, effects: &mut Vec<StartEffect<String>>, source: TranslatorSource)
        ensures
            start_effects_of(final(effects)@) == start_effects_of(old(effects)@) + translator_of(
                self.context().settings,
                source,
            ),
    {
        if self.settings.streaming_translation_enabled {
            effects.push(
                StartEffect::StartTranslator {
                    api_key: self.settings.mistral_api_key.clone(),
                    source,
                },
            );
        }
        proof {
            assert(start_effects_of(effects@) =~= start_effects_of(old(effects)@) + translator_of(
                self.context().settings,
                source,
            ));
        }
    }

    fn start_single_stream(&self) -> (r: Vec<StartEffect<String>>)
        ensures
            start_effects_of(r@) == single_stream(self.context().settings),
    {
        let mut effects = one_effect(
            StartEffect::StartSession {
                api_key: self.settings.mistral_api_key.clone(),
                silent: false,
            },
        );
        self.push_translator(&mut effects, TranslatorSource::Session);
        let ghost before = effects@;
        effects.push(StartEffect::StoreSession);
        proof {
            assert(start_effects_of(effects@) =~= start_effects_of(before) + seq![
                StartEffect::<Seq<char>>::StoreSession,
            ]);
        }
        effects
    }

    fn start_dual_stream(&self) -> (r: Vec<StartEffect<String>>)
        ensures
            start_effects_of(r@) == dual_stream(self.context().settings),
    {
        let mut effects: Vec<StartEffect<String>> = vec![
            StartEffect::StartSystemBridge { sample_rate: 16000, frame_ms: 30 },
            StartEffect::StartSession {
                api_key: self.settings.mistral_api_key.clone(),
                silent: true,
            },
            StartEffect::StartSystemSession { api_key: self.settings.mistral_api_key.clone() },
            StartEffect::StartCoordinator,
        ];
        proof {
            assert(start_effects_of(effects@) =~= seq![
                StartEffect::StartSystemBridge { sample_rate: 16000, frame_ms: 30 },
                StartEffect::StartSession { api_key: self.settings.mistral_api_key@, silent: true },
                StartEffect::StartSystemSession { api_key: self.settings.mistral_api_key@ },
                StartEffect::StartCoordinator,
            ]);
        }
        self.push_translator(&mut effects, TranslatorSource::Coordinator);
        let ghost before = effects@;
        effects.push(StartEffect::StoreSession);
        effects.push(StartEffect::StoreDualStream);
        proof {
            assert(start_effects_of(effects@) =~= start_effects_of(before) + seq![
                StartEffect::<Seq<char>>::StoreSession,
                StartEffect::<Seq<char>>::StoreDualStream,
            ]);
        }
        effects
    }
}

/// How many replies a stage needs at most until the flow has ended.
pub open spec fn start_replies_left(stage: StartStage) -> nat {
    match stage {
        StartStage::AskingEngine => 4,
        StartStage::StartingRecording(_) => 3,
        StartStage::EnablingStreaming(_) => 2,
        StartStage::StartingCapture | StartStage::ResolvingVadPath => 1,
        StartStage::Finished => 0,
    }
}

/// Every reply brings the flow nearer to its end, and it has ended exactly
/// when it asks nothing more.
pub proof fn law_start_comes_to_an_end(c: StartContext, stage: StartStage, reply: StartReply)
    requires
        start_answers(stage, reply),
    ensures
        start_replies_left(start_turn(c, stage, reply).stage) < start_replies_left(stage),
        start_turn(c, stage, reply).ask is Finished <==> start_turn(c, stage, reply).stage
            is Finished,
        first_turn(c).stage !is Finished,
{
}

/// An effect that only a recording justifies.
pub open spec fn needs_recording(effect: StartEffect<Seq<char>>) -> bool {
    match effect {
        StartEffect::InitiateModelLoad
        | StartEffect::SetTray(_)
        | StartEffect::ShowRecordingOverlay
        | StartEffect::ShowStreamingOverlay { .. }
        | StartEffect::FeedbackThenMute { .. } => false,
        _ => true,
    }
}

/// Until the recording has started nothing happens that needs it, and if it
/// does not start the flow ends at once. With the microphone always on the
/// start sound comes before the recording, otherwise only after it.
pub proof fn law_nothing_starts_without_recording(
    c: StartContext,
    engine: Option<EngineType>,
    mode: TranscriptionMode,
)
    ensures
        forall|i: int|
            0 <= i < first_turn(c).effects.len() ==> !needs_recording(
                #[trigger] first_turn(c).effects[i],
            ),
        ({
            let turn = start_turn(c, StartStage::AskingEngine, StartReply::Engine(engine));
            forall|i: int|
                0 <= i < turn.effects.len() ==> !needs_recording(#[trigger] turn.effects[i])
        }),
        start_turn(
            c,
            StartStage::StartingRecording(mode),
            StartReply::RecordingStarted(false),
        ) == start_ended(Seq::empty()),
        ({
            let before = mode_known(c, Seq::empty(), mode).effects;
            let after = recording_started(c, mode).effects;
            if c.settings.always_on_microphone {
                before.last() == (StartEffect::<Seq<char>>::FeedbackThenMute { delay_ms: 0 })
                    && after[0] is RegisterCancelShortcut
            } else {
                before.last() !is FeedbackThenMute && after[0] == (
                StartEffect::<Seq<char>>::FeedbackThenMute { delay_ms: 100 })
            }
        }),
{
}

/// A live translation is started only if the settings want one, and a session
/// on the microphone that stands alone is never silent while one that feeds a
/// coordinator always is.
pub proof fn law_sessions_match_settings(c: StartContext, stage: StartStage, reply: StartReply)
    requires
        start_answers(stage, reply),
    ensures
        ({
            let effects = start_turn(c, stage, reply).effects;
            &&& forall|i: int|
                0 <= i < effects.len() && (#[trigger] effects[i]) is StartTranslator
                    ==> c.settings.streaming_translation_enabled
            &&& forall|i: int|
                0 <= i < effects.len() ==> (#[trigger] effects[i] matches StartEffect::StartSession {
                    silent,
                    ..
                } ==> silent == effects.contains(StartEffect::StoreDualStream))
        }),
{
    let effects = start_turn(c, stage, reply).effects;
    let single = single_stream(c.settings);
    let dual = dual_stream(c.settings);
    assert(dual.last() is StoreDualStream);
    assert(dual[dual.len() - 1] == StartEffect::<Seq<char>>::StoreDualStream);
    assert(dual.contains(StartEffect::StoreDualStream));
    assert(forall|i: int| 0 <= i < single.len() ==> (#[trigger] single[i]) !is StoreDualStream);
    assert(!single.contains(StartEffect::StoreDualStream));
}

} // verus!
