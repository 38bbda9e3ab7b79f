//! What happens when the transcription shortcut is released.
//!
//! The flow alternates between effects, which are carried out in order, and
//! one question, whose answer decides how it goes on.

use vstd::prelude::*;
use vstd::string::*;

use crate::actions::chinese::{conversion_outcome, maybe_convert_chinese_variant};
use crate::actions::post_process::{
    plan_post_process, post_process_plan, post_processed, processed_text, PostProcessPlan,
    PostProcessReply,
};
use crate::managers::dual_stream::{final_text, segments_of, DualStreamCoordinator, Segment};
use crate::managers::streaming_translator::{is_likely_english, likely_english};
use crate::settings::{AppSettings, Platform};
use crate::text::{optional_text, same};

verus! {

/// The states of the tray icon.
#[derive(Clone, Copy, Debug, PartialEq, Eq, Structural)]
pub enum TrayIconState {
    Idle,
    Recording,
    Transcribing,
}

/// An effect of the flow; `T` is the type of texts.
pub enum StopEffect<T> {
    UnregisterCancelShortcut,
    SetTray(TrayIconState),
    ShowTranscribingOverlay,
    ShowProcessingOverlay,
    HideOverlay,
    /// Unmute the system if it was muted for the recording.
    RemoveMute,
    PlayStopSound,
    DisableAudioStreaming,
    StopIncrementalSession,
    /// Stop the live translation, if there is one.
    StopTranslator,
    StopSystemCapture,
    /// End the recording and keep its samples for the history.
    StopRecording,
    SaveHistory { transcription: T, post_processed: Option<T>, prompt: Option<T> },
    /// On the main thread: paste the text, hide the overlay and set the tray
    /// icon to idle. Where the main thread cannot be reached, hide and set
    /// only.
    PasteThenIdle(T),
    /// The toggle of the binding is off again.
    ClearToggle(T),
}

/// A question of the flow; `T` is the type of texts.
pub enum StopAsk<T> {
    /// Take the incremental session out of its place. Was there one?
    TakeIncrementalSession,
    /// Go on in a task of its own.
    Spawn,
    /// Take the dual-stream parts out of their place. Were there any?
    TakeDualStream,
    /// Stop the coordinator. What segments did it collect?
    StopCoordinator,
    /// Stop the session of the microphone, if there is one. What is its text?
    StopSession,
    /// Stop the session of the system audio. What is its text?
    StopSystemSession,
    /// End the recording of the binding. Were there samples?
    StopRecording,
    /// Transcribe the samples. `None` is a failure.
    Transcribe,
    /// What text did the incremental session accumulate?
    AccumulatedText,
    ReadSettings,
    /// Convert the text to the script of the language, which
    /// [`TranscribeStop::convert`] does.
    ConvertChinese { language: T, text: T },
    Translate { api_key: T, model: T, text: T },
    PostProcess(PostProcessPlan<T>),
    /// Nothing: the flow has ended.
    Finished,
}

/// An answer to a [`StopAsk`].
pub enum StopReply {
    Taken(bool),
    Spawned,
    Recorded(bool),
    Transcribed(Option<String>),
    Text(String),
    Segments(Vec<(String, bool)>),
    Settings(AppSettings),
    Converted(Option<String>),
    Translated(Option<String>),
    PostProcessed(PostProcessReply),
}

/// The ways of transcribing that end in a text to be delivered.
#[derive(Clone, Copy, Debug, PartialEq, Eq, Structural)]
pub enum Flow {
    /// The samples were transcribed after the recording.
    Batch,
    /// One stream was transcribed during the recording.
    SingleStream,
    /// Two streams were transcribed during the recording.
    DualStream,
}

/// What the flow waits for; `T` is the type of texts, `S` that of segments.
pub enum StopStage<T, S> {
    TakingIncremental { mistral: bool },
    Spawning { incremental: bool, mistral: bool },
    /// The recording is being ended, in batch mode or with a preview.
    Recording { incremental: bool },
    Transcribing { incremental: bool },
    Accumulating,
    TakingDual,
    StoppingCoordinator,
    StoppingMic { segments: S },
    StoppingSystem { segments: S, mic_final: T },
    StoppingSingle,
    ReadingSettings { flow: Flow, original: T },
    Converting { flow: Flow, original: T, settings: AppSettings },
    Translating { flow: Flow, original: T, settings: AppSettings },
    PostProcessing { flow: Flow, original: T, text: T, settings: AppSettings },
    Finished,
}

/// The stage in terms of mathematical texts.
pub type StageModel = StopStage<Seq<char>, Seq<Segment>>;

impl View for StopEffect<String> {
    type V = StopEffect<Seq<char>>;

    open spec fn view(&self) -> StopEffect<Seq<char>> {
        match self {
            StopEffect::UnregisterCancelShortcut => StopEffect::UnregisterCancelShortcut,
            StopEffect::SetTray(icon) => StopEffect::SetTray(*icon),
            StopEffect::ShowTranscribingOverlay => StopEffect::ShowTranscribingOverlay,
            StopEffect::ShowProcessingOverlay => StopEffect::ShowProcessingOverlay,
            StopEffect::HideOverlay => StopEffect::HideOverlay,
            StopEffect::RemoveMute => StopEffect::RemoveMute,
            StopEffect::PlayStopSound => StopEffect::PlayStopSound,
            StopEffect::DisableAudioStreaming => StopEffect::DisableAudioStreaming,
            StopEffect::StopIncrementalSession => StopEffect::StopIncrementalSession,
            StopEffect::StopTranslator => StopEffect::StopTranslator,
            StopEffect::StopSystemCapture => StopEffect::StopSystemCapture,
            StopEffect::StopRecording => StopEffect::StopRecording,
            StopEffect::SaveHistory {
                transcription,
                post_processed,
                prompt,
            } => StopEffect::SaveHistory {
                transcription: transcription@,
                post_processed: optional_text(*post_processed),
                prompt: optional_text(*prompt),
            },
            StopEffect::PasteThenIdle(text) => StopEffect::PasteThenIdle(text@),
            StopEffect::ClearToggle(binding) => StopEffect::ClearToggle(binding@),
        }
    }
}

impl View for StopAsk<String> {
    type V = StopAsk<Seq<char>>;

    open spec fn view(&self) -> StopAsk<Seq<char>> {
        match self {
            StopAsk::TakeIncrementalSession => StopAsk::TakeIncrementalSession,
            StopAsk::Spawn => StopAsk::Spawn,
            StopAsk::TakeDualStream => StopAsk::TakeDualStream,
            StopAsk::StopCoordinator => StopAsk::StopCoordinator,
            StopAsk::StopSession => StopAsk::StopSession,
            StopAsk::StopSystemSession => StopAsk::StopSystemSession,
            StopAsk::StopRecording => StopAsk::StopRecording,
            StopAsk::Transcribe => StopAsk::Transcribe,
            StopAsk::AccumulatedText => StopAsk::AccumulatedText,
            StopAsk::ReadSettings => StopAsk::ReadSettings,
            StopAsk::ConvertChinese { language, text } => StopAsk::ConvertChinese {
                language: language@,
                text: text@,
            },
            StopAsk::Translate { api_key, model, text } => StopAsk::Translate {
                api_key: api_key@,
                model: model@,
                text: text@,
            },
            StopAsk::PostProcess(plan) => StopAsk::PostProcess(plan@),
            StopAsk::Finished => StopAsk::Finished,
        }
    }
}

impl View for StopStage<String, Vec<(String, bool)>> {
    type V = StageModel;

    open spec fn view(&self) -> StageModel {
        match self {
            StopStage::TakingIncremental { mistral } => StopStage::TakingIncremental {
                mistral: *mistral,
            },
            StopStage::Spawning { incremental, mistral } => StopStage::Spawning {
                incremental: *incremental,
                mistral: *mistral,
            },
            StopStage::Recording { incremental } => StopStage::Recording {
                incremental: *incremental,
            },
            StopStage::Transcribing { incremental } => StopStage::Transcribing {
                incremental: *incremental,
            },
            StopStage::Accumulating => StopStage::Accumulating,
            StopStage::TakingDual => StopStage::TakingDual,
            StopStage::StoppingCoordinator => StopStage::StoppingCoordinator,
            StopStage::StoppingMic { segments } => StopStage::StoppingMic {
                segments: segments_of(segments@),
            },
            StopStage::StoppingSystem { segments, mic_final } => StopStage::StoppingSystem {
                segments: segments_of(segments@),
                mic_final: mic_final@,
            },
            StopStage::StoppingSingle => StopStage::StoppingSingle,
            StopStage::ReadingSettings { flow, original } => StopStage::ReadingSettings {
                flow: *flow,
                original: original@,
            },
            StopStage::Converting { flow, original, settings } => StopStage::Converting {
                flow: *flow,
                original: original@,
                settings: *settings,
            },
            StopStage::Translating { flow, original, settings } => StopStage::Translating {
                flow: *flow,
                original: original@,
                settings: *settings,
            },
            StopStage::PostProcessing {
                flow,
                original,
                text,
                settings,
            } => StopStage::PostProcessing {
                flow: *flow,
                original: original@,
                text: text@,
                settings: *settings,
            },
            StopStage::Finished => StopStage::Finished,
        }
    }
}

/// The effects in terms of mathematical texts.
pub open spec fn effects_of(effects: Seq<StopEffect<String>>) -> Seq<StopEffect<Seq<char>>> {
    effects.map_values(|e: StopEffect<String>| e@)
}

/// A turn of the flow: the effects to carry out, the question to answer, and
/// the stage that waits for the answer.
pub struct TurnModel {
    pub effects: Seq<StopEffect<Seq<char>>>,
    pub ask: StopAsk<Seq<char>>,
    pub stage: StageModel,
}

/// What does not change during the flow.
pub struct StopContext {
    pub post_process: bool,
    pub binding: Seq<char>,
    pub platform: Platform,
}

/// An end without a text: the overlay goes away and everything is idle.
pub open spec fn ended_idle(c: StopContext, before: Seq<StopEffect<Seq<char>>>) -> TurnModel {
    TurnModel {
        effects: before + seq![
            StopEffect::HideOverlay,
            StopEffect::SetTray(TrayIconState::Idle),
            StopEffect::ClearToggle(c.binding),
        ],
        ask: StopAsk::Finished,
        stage: StopStage::Finished,
    }
}

/// A transcription has arrived: an empty one ends the flow.
pub open spec fn arrived(
    c: StopContext,
    before: Seq<StopEffect<Seq<char>>>,
    flow: Flow,
    original: Seq<char>,
) -> TurnModel {
    if original.len() == 0 {
        ended_idle(c, before)
    } else {
        TurnModel {
            effects: before,
            ask: StopAsk::ReadSettings,
            stage: StopStage::ReadingSettings { flow, original },
        }
    }
}

/// The transcription as the history keeps it: with a translation, or whatever
/// else replaced it, below a line.
pub open spec fn history_text(
    flow: Flow,
    settings: AppSettings,
    original: Seq<char>,
    delivered: Seq<char>,
) -> Seq<char> {
    if flow !is Batch && settings.streaming_translation_enabled && delivered != original {
        original + "\n\n---\n\n"@ + delivered
    } else {
        original
    }
}

/// The end with a text: it is saved and pasted.
///
/// `text` is the transcription after conversion or translation, `processed`
/// what post-processing made of it.
pub open spec fn delivered(
    c: StopContext,
    before: Seq<StopEffect<Seq<char>>>,
    flow: Flow,
    settings: AppSettings,
    original: Seq<char>,
    text: Seq<char>,
    processed: Option<Seq<char>>,
) -> TurnModel {
    let result = match processed {
        Some(p) => p,
        None => text,
    };
    TurnModel {
        effects: before + seq![
            StopEffect::SaveHistory {
                transcription: history_text(flow, settings, original, result),
                post_processed: if processed is Some || text != original {
                    Some(result)
                } else {
                    None
                },
                prompt: if processed is Some {
                    settings.selected_prompt_text()
                } else {
                    None
                },
            },
            StopEffect::PasteThenIdle(result),
            StopEffect::ClearToggle(c.binding),
        ],
        ask: StopAsk::Finished,
        stage: StopStage::Finished,
    }
}

/// The text is ready for post-processing, if the shortcut asks for it.
pub open spec fn refined(
    c: StopContext,
    flow: Flow,
    settings: AppSettings,
    original: Seq<char>,
    text: Seq<char>,
) -> TurnModel {
    if !c.post_process {
        delivered(c, Seq::empty(), flow, settings, original, text, None)
    } else {
        let plan = post_process_plan(settings, text, c.platform);
        if plan is Skip {
            delivered(
                c,
                seq![StopEffect::ShowProcessingOverlay],
                flow,
                settings,
                original,
                text,
                None,
            )
        } else {
            TurnModel {
                effects: seq![StopEffect::ShowProcessingOverlay],
                ask: StopAsk::PostProcess(plan),
                stage: StopStage::PostProcessing { flow, original, text, settings },
            }
        }
    }
}

/// The settings are known: the text is converted, translated, or neither.
pub open spec fn informed(
    c: StopContext,
    flow: Flow,
    original: Seq<char>,
    settings: AppSettings,
) -> TurnModel {
    if flow !is Batch && settings.streaming_translation_enabled {
        if likely_english(original) {
            refined(c, flow, settings, original, original)
        } else {
            TurnModel {
                effects: Seq::empty(),
                ask: StopAsk::Translate {
                    api_key: settings.mistral_api_key@,
                    model: "mistral-medium-latest"@,
                    text: original,
                },
                stage: StopStage::Translating { flow, original, settings },
            }
        }
    } else if flow is DualStream {
        refined(c, flow, settings, original, original)
    } else {
        TurnModel {
            effects: Seq::empty(),
            ask: StopAsk::ConvertChinese { language: settings.selected_language@, text: original },
            stage: StopStage::Converting { flow, original, settings },
        }
    }
}

/// The task has started: each way of transcribing goes its own way.
pub open spec fn spawned(incremental: bool, mistral: bool) -> TurnModel {
    if incremental {
        TurnModel {
            effects: seq![
                StopEffect::DisableAudioStreaming,
                StopEffect::StopIncrementalSession,
                StopEffect::SetTray(TrayIconState::Transcribing),
                StopEffect::ShowTranscribingOverlay,
            ],
            ask: StopAsk::StopRecording,
            stage: StopStage::Recording { incremental: true },
        }
    } else if mistral {
        TurnModel {
            effects: Seq::empty(),
            ask: StopAsk::TakeDualStream,
            stage: StopStage::TakingDual,
        }
    } else {
        TurnModel {
            effects: Seq::empty(),
            ask: StopAsk::StopRecording,
            stage: StopStage::Recording { incremental: false },
        }
    }
}

/// The incremental session was taken: the part that runs before the task.
pub open spec fn prepared(incremental: bool, mistral: bool) -> TurnModel {
    TurnModel {
        effects: (if incremental || mistral {
            Seq::<StopEffect<Seq<char>>>::empty()
        } else {
            seq![
                StopEffect::SetTray(TrayIconState::Transcribing),
                StopEffect::ShowTranscribingOverlay,
            ]
        }) + seq![StopEffect::RemoveMute, StopEffect::PlayStopSound],
        ask: StopAsk::Spawn,
        stage: StopStage::Spawning { incremental, mistral },
    }
}

/// The dual-stream parts were taken.
pub open spec fn dual_taken(dual: bool) -> TurnModel {
    if dual {
        TurnModel {
            effects: seq![
                StopEffect::DisableAudioStreaming,
                StopEffect::StopTranslator,
                StopEffect::StopSystemCapture,
            ],
            ask: StopAsk::StopCoordinator,
            stage: StopStage::StoppingCoordinator,
        }
    } else {
        TurnModel {
            effects: seq![StopEffect::DisableAudioStreaming, StopEffect::StopTranslator],
            ask: StopAsk::StopSession,
            stage: StopStage::StoppingSingle,
        }
    }
}

/// Whether a reply answers the question of a stage.
pub open spec fn answers(stage: StageModel, reply: StopReply) -> bool {
    match stage {
        StopStage::TakingIncremental { .. } | StopStage::TakingDual => reply is Taken,
        StopStage::Spawning { .. } => reply is Spawned,
        StopStage::Recording { .. } => reply is Recorded,
        StopStage::Transcribing { .. } => reply is Transcribed,
        StopStage::StoppingCoordinator => reply is Segments,
        StopStage::Accumulating
        | StopStage::StoppingMic { .. }
        | StopStage::StoppingSystem { .. }
        | StopStage::StoppingSingle => reply is Text,
        StopStage::ReadingSettings { .. } => reply is Settings,
        StopStage::Converting { .. } => reply is Converted,
        StopStage::Translating { .. } => reply is Translated,
        StopStage::PostProcessing { .. } => reply is PostProcessed,
        StopStage::Finished => false,
    }
}

/// The text that replaces the original, if there is one.
pub open spec fn or_original(replacement: Option<Seq<char>>, original: Seq<char>) -> Seq<char> {
    match replacement {
        Some(text) => text,
        None => original,
    }
}

/// The turn that follows a reply.
pub open spec fn stop_turn(c: StopContext, stage: StageModel, reply: StopReply) -> TurnModel {
    match (stage, reply) {
        (StopStage::TakingIncremental { mistral }, StopReply::Taken(found)) => prepared(
            found,
            mistral,
        ),
        (StopStage::Spawning { incremental, mistral }, _) => spawned(incremental, mistral),
        (StopStage::Recording { incremental }, StopReply::Recorded(samples)) => if samples {
            TurnModel {
                effects: Seq::empty(),
                ask: StopAsk::Transcribe,
                stage: StopStage::Transcribing { incremental },
            }
        } else {
            ended_idle(c, Seq::empty())
        },
        (
            StopStage::Transcribing { incremental },
            StopReply::Transcribed(transcription),
        ) => match transcription {
            Some(text) if !incremental || text@.len() > 0 => arrived(
                c,
                Seq::empty(),
                Flow::Batch,
                text@,
            ),
            _ => if incremental {
                TurnModel {
                    effects: Seq::empty(),
                    ask: StopAsk::AccumulatedText,
                    stage: StopStage::Accumulating,
                }
            } else {
                ended_idle(c, Seq::empty())
            },
        },
        (StopStage::Accumulating, StopReply::Text(text)) => arrived(
            c,
            Seq::empty(),
            Flow::Batch,
            text@,
        ),
        (StopStage::TakingDual, StopReply::Taken(found)) => dual_taken(found && c.platform.mac()),
        (StopStage::StoppingCoordinator, StopReply::Segments(segments)) => TurnModel {
            effects: Seq::empty(),
            ask: StopAsk::StopSession,
            stage: StopStage::StoppingMic { segments: segments_of(segments@) },
        },
        (StopStage::StoppingMic { segments }, StopReply::Text(text)) => TurnModel {
            effects: Seq::empty(),
            ask: StopAsk::StopSystemSession,
            stage: StopStage::StoppingSystem { segments, mic_final: text@ },
        },
        (StopStage::StoppingSystem { segments, mic_final }, StopReply::Text(text)) => arrived(
            c,
            seq![StopEffect::StopRecording],
            Flow::DualStream,
            final_text(segments, mic_final, text@),
        ),
        (StopStage::StoppingSingle, StopReply::Text(text)) => arrived(
            c,
            seq![StopEffect::StopRecording],
            Flow::SingleStream,
            text@,
        ),
        (StopStage::ReadingSettings { flow, original }, StopReply::Settings(settings)) => informed(
            c,
            flow,
            original,
            settings,
        ),
        (
            StopStage::Converting { flow, original, settings },
            StopReply::Converted(converted),
        ) => refined(c, flow, settings, original, or_original(optional_text(converted), original)),
        (
            StopStage::Translating { flow, original, settings },
            StopReply::Translated(translated),
        ) => refined(c, flow, settings, original, or_original(optional_text(translated), original)),
        (
            StopStage::PostProcessing { flow, original, text, settings },
            StopReply::PostProcessed(answer),
        ) => delivered(
            c,
            Seq::empty(),
            flow,
            settings,
            original,
            text,
            processed_text(answer),
        ),
        _ => TurnModel { effects: Seq::empty(), ask: StopAsk::Finished, stage },
    }
}

/// A turn of the flow: carry out the effects in order, then answer.
pub struct StopTurn {
    pub effects: Vec<StopEffect<String>>,
    pub ask: StopAsk<String>,
}

struct Next {
    effects: Vec<StopEffect<String>>,
    ask: StopAsk<String>,
    stage: StopStage<String, Vec<(String, bool)>>,
}

impl View for Next {
    type V = TurnModel;

    closed spec fn view(&self) -> TurnModel {
        TurnModel { effects: effects_of(self.effects@), ask: self.ask@, stage: self.stage@ }
    }
}

/// The flow that follows the release of the transcription shortcut.
pub struct TranscribeStop {
    post_process: bool,
    binding_id: String,
    platform: Platform,
    stage: StopStage<String, Vec<(String, bool)>>,
}

impl TranscribeStop {
    /// What does not change during the flow.
    pub closed spec fn context(self) -> StopContext {
        StopContext {
            post_process: self.post_process,
            binding: self.binding_id@,
            platform: self.platform,
        }
    }

    /// What the flow waits for.
    pub closed spec fn waiting(self) -> StageModel {
        self.stage@
    }

    /// Starts the flow.
    pub fn begin(
        post_process: bool,
        binding_id: &str,
        platform: Platform,
        settings: &AppSettings,
    ) -> (r: (TranscribeStop, StopTurn))
        ensures
            r.0.context() == (StopContext { post_process, binding: binding_id@, platform }),
            r.0.waiting() == (StageModel::TakingIncremental {
                mistral: settings.streams_to_mistral(),
            }),
            effects_of(r.1.effects@) == seq![StopEffect::<Seq<char>>::UnregisterCancelShortcut],
            r.1.ask@ == StopAsk::<Seq<char>>::TakeIncrementalSession,
    {
        let flow = TranscribeStop {
            post_process,
            binding_id: binding_id.to_owned(),
            platform,
            stage: StopStage::TakingIncremental { mistral: settings.is_mistral_api() },
        };
        let effects = only(StopEffect::UnregisterCancelShortcut);
        (flow, StopTurn { effects, ask: StopAsk::TakeIncrementalSession })
    }

    /// Goes on with the reply to the last question.
    pub fn step(self, reply: StopReply) -> (r: (TranscribeStop, StopTurn))
        requires
            answers(self.waiting(), reply),
        ensures
            r.0.context() == self.context(),
            ({
                let turn = stop_turn(self.context(), self.waiting(), reply);
                &&& r.0.waiting() == turn.stage
                &&& effects_of(r.1.effects@) == turn.effects
                &&& r.1.ask@ == turn.ask
            }),
    {
        let binding_id = self.binding_id.clone();
        let post_process = self.post_process;
        let platform = self.platform;
        let next = self.next(reply);
        (
            TranscribeStop { post_process, binding_id, platform, stage: next.stage },
            StopTurn { effects: next.effects, ask: next.ask },
        )
    }

    /// Goes on where a text is to be converted to the script of the language:
    /// converts it, and takes that for the reply.
    pub fn convert(self) -> (r: (TranscribeStop, StopTurn))
        requires
            self.waiting() is Converting,
        ensures
            r.0.context() == self.context(),
            self.waiting() matches StopStage::Converting { flow, original, settings } && exists|
                converted: Option<Seq<char>>,
            |
                {
                    let turn = refined(
                        self.context(),
                        flow,
                        settings,
                        original,
                        or_original(converted, original),
                    );
                    &&& #[trigger] conversion_outcome(
                        settings.selected_language@,
                        original,
                        converted,
                    )
                    &&& r.0.waiting() == turn.stage
                    &&& effects_of(r.1.effects@) == turn.effects
                    &&& r.1.ask@ == turn.ask
                },
    {
        let converted = match &self.stage {
            StopStage::Converting { original, settings, .. } => maybe_convert_chinese_variant(
                settings,
                original.as_str(),
            ),
            _ => None,
        };
        self.step(StopReply::Converted(converted))
    }

    fn next(self, reply: StopReply) -> (r: Next)
        requires
            answers(self.waiting(), reply),
        ensures
            r@ == stop_turn(self.context(), self.waiting(), reply),
    {
        let end = End {
            post_process: self.post_process,
            binding_id: self.binding_id,
            platform: self.platform,
        };
        match (self.stage, reply) {
            (StopStage::TakingIncremental { mistral }, StopReply::Taken(found)) => prepare(
                found,
                mistral,
            ),
            (StopStage::Spawning { incremental, mistral }, _) => spawn(incremental, mistral),
            (StopStage::Recording { incremental }, StopReply::Recorded(samples)) => {
                if samples {
                    question(StopAsk::Transcribe, StopStage::Transcribing { incremental })
                } else {
                    end.idle(nothing())
                }
            },
            (StopStage::Transcribing { incremental }, StopReply::Transcribed(transcription)) => {
                match transcription {
                    Some(text) => {
                        if !incremental || !text.as_str().is_empty() {
                            return end.arrive(nothing(), Flow::Batch, text);
                        }
                    },
                    None => {},
                }
                if incremental {
                    question(StopAsk::AccumulatedText, StopStage::Accumulating)
                } else {
                    end.idle(nothing())
                }
            },
            (StopStage::Accumulating, StopReply::Text(text)) => end.arrive(
                nothing(),
                Flow::Batch,
                text,
            ),
            (StopStage::TakingDual, StopReply::Taken(found)) => take_dual(
                found && end.platform.is_mac(),
            ),
            (StopStage::StoppingCoordinator, StopReply::Segments(segments)) => question(
                StopAsk::StopSession,
                StopStage::StoppingMic { segments },
            ),
            (StopStage::StoppingMic { segments }, StopReply::Text(text)) => question(
                StopAsk::StopSystemSession,
                StopStage::StoppingSystem { segments, mic_final: text },
            ),
            (StopStage::StoppingSystem { segments, mic_final }, StopReply::Text(text)) => {
                let merged = DualStreamCoordinator::build_final_text(
                    segments.as_slice(),
                    mic_final.as_str(),
                    text.as_str(),
                );
                end.arrive(only(StopEffect::StopRecording), Flow::DualStream, merged)
            },
            (StopStage::StoppingSingle, StopReply::Text(text)) => end.arrive(
                only(StopEffect::StopRecording),
                Flow::SingleStream,
                text,
            ),
            (StopStage::ReadingSettings { flow, original }, StopReply::Settings(settings)) => {
                end.inform(flow, original, settings)
            },
            (
                StopStage::Converting { flow, original, settings },
                StopReply::Converted(converted),
            ) => {
                let text = match converted {
                    Some(text) => text,
                    None => original.clone(),
                };
                end.refine(flow, settings, original, text)
            },
            (
                StopStage::Translating { flow, original, settings },
                StopReply::Translated(translated),
            ) => {
                let text = match translated {
                    Some(text) => text,
                    None => original.clone(),
                };
                end.refine(flow, settings, original, text)
            },
            (
                StopStage::PostProcessing { flow, original, text, settings },
                StopReply::PostProcessed(answer),
            ) => end.deliver(nothing(), flow, &settings, original, text, post_processed(answer)),
            (stage, _) => question(StopAsk::Finished, stage),
        }
    }
}

fn nothing() -> (r: Vec<StopEffect<String>>)
    ensures
        effects_of(r@) == Seq::<StopEffect<Seq<char>>>::empty(),
{
    let r: Vec<StopEffect<String>> = Vec::new();
    proof {
        assert(effects_of(r@) =~= Seq::<StopEffect<Seq<char>>>::empty());
    }
    r
}

fn only(effect: StopEffect<String>) -> (r: Vec<StopEffect<String>>)
    ensures
        effects_of(r@) == seq![effect@],
{
    let r: Vec<StopEffect<String>> = vec![effect];
    proof {
        assert(effects_of(r@) =~= seq![effect@]);
    }
    r
}

fn question(ask: StopAsk<String>, stage: StopStage<String, Vec<(String, bool)>>) -> (r: Next)
    ensures
        r@ == (TurnModel { effects: Seq::empty(), ask: ask@, stage: stage@ }),
{
    Next { effects: nothing(), ask, stage }
}

fn prepare(incremental: bool, mistral: bool) -> (r: Next)
    ensures
        r@ == prepared(incremental, mistral),
{
    let mut effects: Vec<StopEffect<String>> = Vec::new();
    if !mistral && !incremental {
        effects.push(StopEffect::SetTray(TrayIconState::Transcribing));
        effects.push(StopEffect::ShowTranscribingOverlay);
    }
    effects.push(StopEffect::RemoveMute);
    effects.push(StopEffect::PlayStopSound);
    let r = Next {
        effects,
        ask: StopAsk::Spawn,
        stage: StopStage::Spawning { incremental, mistral },
    };
    proof {
        assert(r@.effects =~= prepared(incremental, mistral).effects);
    }
    r
}

fn spawn(incremental: bool, mistral: bool) -> (r: Next)
    ensures
        r@ == spawned(incremental, mistral),
{
    if incremental {
        let r = Next {
            effects: vec![
                StopEffect::DisableAudioStreaming,
                StopEffect::StopIncrementalSession,
                StopEffect::SetTray(TrayIconState::Transcribing),
                StopEffect::ShowTranscribingOverlay,
            ],
            ask: StopAsk::StopRecording,
            stage: StopStage::Recording { incremental: true },
        };
        proof {
            assert(r@.effects =~= spawned(incremental, mistral).effects);
        }
        r
    } else if mistral {
        question(StopAsk::TakeDualStream, StopStage::TakingDual)
    } else {
        question(StopAsk::StopRecording, StopStage::Recording { incremental: false })
    }
}

fn take_dual(dual: bool) -> (r: Next)
    ensures
        r@ == dual_taken(dual),
{
    let r = if dual {
        Next {
            effects: vec![
                StopEffect::DisableAudioStreaming,
                StopEffect::StopTranslator,
                StopEffect::StopSystemCapture,
            ],
            ask: StopAsk::StopCoordinator,
            stage: StopStage::StoppingCoordinator,
        }
    } else {
        Next {
            effects: vec![StopEffect::DisableAudioStreaming, StopEffect::StopTranslator],
            ask: StopAsk::StopSession,
            stage: StopStage::StoppingSingle,
        }
    };
    proof {
        assert(r@.effects =~= dual_taken(dual).effects);
    }
    r
}

struct End {
    post_process: bool,
    binding_id: String,
    platform: Platform,
}

impl View for End {
    type V = StopContext;

    closed spec fn view(&self) -> StopContext {
        StopContext {
            post_process: self.post_process,
            binding: self.binding_id@,
            platform: self.platform,
        }
    }
}

impl End {
    fn idle(self, before: Vec<StopEffect<String>>) -> (r: Next)
        ensures
            r@ == ended_idle(self@, effects_of(before@)),
    {
        let mut effects = before;
        effects.push(StopEffect::HideOverlay);
        effects.push(StopEffect::SetTray(TrayIconState::Idle));
        effects.push(StopEffect::ClearToggle(self.binding_id));
        let r = Next { effects, ask: StopAsk::Finished, stage: StopStage::Finished };
        proof {
            assert(r@.effects =~= ended_idle(self@, effects_of(before@)).effects);
        }
        r
    }

    fn arrive(self, before: Vec<StopEffect<String>>, flow: Flow, original: String) -> (r: Next)
        ensures
            r@ == arrived(self@, effects_of(before@), flow, original@),
    {
        if original.as_str().is_empty() {
            self.idle(before)
        } else {
            Next {
                effects: before,
                ask: StopAsk::ReadSettings,
                stage: StopStage::ReadingSettings { flow, original },
            }
        }
    }

    fn deliver(
        self,
        before: Vec<StopEffect<String>>,
        flow: Flow,
        settings: &AppSettings,
        original: String,
        text: String,
        processed: Option<String>,
    ) -> (r: Next)
        ensures
            r@ == delivered(
                self@,
                effects_of(before@),
                flow,
                *settings,
                original@,
                text@,
                optional_text(processed),
            ),
    {
        let converted = !same(text.as_str(), original.as_str());
        let (result, post_processed, prompt) = match processed {
            Some(p) => (p.clone(), Some(p), settings.selected_prompt()),
            None => {
                if converted {
                    (text.clone(), Some(text), None)
                } else {
                    (text, None, None)
                }
            },
        };
        let with_result = match flow {
            Flow::Batch => false,
            _ => settings.streaming_translation_enabled && !same(
                result.as_str(),
                original.as_str(),
            ),
        };
        let transcription = if with_result {
            original.concat("\n\n---\n\n").concat(result.as_str())
        } else {
            original
        };
        let mut effects = before;
        effects.push(StopEffect::SaveHistory { transcription, post_processed, prompt });
        effects.push(StopEffect::PasteThenIdle(result));
        effects.push(StopEffect::ClearToggle(self.binding_id));
        let r = Next { effects, ask: StopAsk::Finished, stage: StopStage::Finished };
        proof {
            assert(r@.effects =~= delivered(
                self@,
                effects_of(before@),
                flow,
                *settings,
                original@,
                text@,
                optional_text(processed),
            ).effects);
        }
        r
    }

    fn refine(self, flow: Flow, settings: AppSettings, original: String, text: String) -> (r: Next)
        ensures
            r@ == refined(self@, flow, settings, original@, text@),
    {
        if !self.post_process {
            return self.deliver(nothing(), flow, &settings, original, text, None);
        }
        let plan = plan_post_process(&settings, text.as_str(), self.platform);
        let effects = only(StopEffect::ShowProcessingOverlay);
        match plan {
            PostProcessPlan::Skip(_) => self.deliver(
                effects,
                flow,
                &settings,
                original,
                text,
                None,
            ),
            plan => Next {
                effects,
                ask: StopAsk::PostProcess(plan),
                stage: StopStage::PostProcessing { flow, original, text, settings },
            },
        }
    }

    fn inform(self, flow: Flow, original: String, settings: AppSettings) -> (r: Next)
        ensures
            r@ == informed(self@, flow, original@, settings),
    {
        let streamed = match flow {
            Flow::Batch => false,
            _ => true,
        };
        let dual = match flow {
            Flow::DualStream => true,
            _ => false,
        };
        if streamed && settings.streaming_translation_enabled {
            if is_likely_english(original.as_str()) {
                let text = original.clone();
                self.refine(flow, settings, original, text)
            } else {
                let ask = StopAsk::Translate {
                    api_key: settings.mistral_api_key.clone(),
                    model: "mistral-medium-latest".to_owned(),
                    text: original.clone(),
                };
                question(ask, StopStage::Translating { flow, original, settings })
            }
        } else if dual {
            let text = original.clone();
            self.refine(flow, settings, original, text)
        } else {
            let ask = StopAsk::ConvertChinese {
                language: settings.selected_language.clone(),
                text: original.clone(),
            };
            question(ask, StopStage::Converting { flow, original, settings })
        }
    }
}

/// How many replies a stage needs at most until the flow has ended.
pub open spec fn replies_left(stage: StageModel) -> nat {
    match stage {
        StopStage::TakingIncremental { .. } => 10,
        StopStage::Spawning { .. } => 9,
        StopStage::TakingDual => 8,
        StopStage::StoppingCoordinator => 7,
        StopStage::StoppingMic { .. } => 6,
        StopStage::StoppingSystem { .. } => 5,
        StopStage::StoppingSingle => 4,
        StopStage::Recording { .. } => 6,
        StopStage::Transcribing { .. } => 5,
        StopStage::Accumulating => 4,
        StopStage::ReadingSettings { .. } => 3,
        StopStage::Converting { .. } => 2,
        StopStage::Translating { .. } => 2,
        StopStage::PostProcessing { .. } => 1,
        StopStage::Finished => 0,
    }
}

/// Every reply brings the flow nearer to its end, and it has ended exactly
/// when it asks nothing more.
pub proof fn law_flow_comes_to_an_end(c: StopContext, stage: StageModel, reply: StopReply)
    requires
        answers(stage, reply),
    ensures
        replies_left(stop_turn(c, stage, reply).stage) < replies_left(stage),
        stop_turn(c, stage, reply).ask is Finished <==> stop_turn(c, stage, reply).stage
            is Finished,
{
}

/// An effect that belongs to the end of the flow.
pub open spec fn closing(effect: StopEffect<Seq<char>>) -> bool {
    effect is SaveHistory || effect is PasteThenIdle || effect is ClearToggle
}

/// However the flow ends, the overlay goes away, the tray icon becomes idle
/// and the toggle of the binding is cleared; before its end, nothing is saved
/// or pasted and the toggle stays.
pub proof fn law_every_end_is_idle(c: StopContext, stage: StageModel, reply: StopReply)
    requires
        answers(stage, reply),
    ensures
        ({
            let turn = stop_turn(c, stage, reply);
            let n = turn.effects.len() as int;
            if turn.ask is Finished {
                &&& n >= 3
                &&& turn.effects[n - 1] == StopEffect::ClearToggle(c.binding)
                &&& (turn.effects[n - 2] is PasteThenIdle || (turn.effects[n - 2]
                    == StopEffect::<Seq<char>>::SetTray(TrayIconState::Idle)
                    && turn.effects[n - 3] == StopEffect::<Seq<char>>::HideOverlay))
            } else {
                forall|i: int| 0 <= i < n ==> !closing(#[trigger] turn.effects[i])
            }
        }),
{
}

/// The transcription that a stage carries along.
pub open spec fn carried(stage: StageModel) -> Option<Seq<char>> {
    match stage {
        StopStage::ReadingSettings { original, .. }
        | StopStage::Converting { original, .. }
        | StopStage::Translating { original, .. }
        | StopStage::PostProcessing { original, .. } => Some(original),
        _ => None,
    }
}

/// A transcription that was found is never lost or replaced, and ends up at the
/// beginning of what the history keeps; what is pasted is the
/// transcription itself or is kept beside it.
pub proof fn law_transcription_reaches_history(
    c: StopContext,
    stage: StageModel,
    reply: StopReply,
    original: Seq<char>,
)
    requires
        answers(stage, reply),
        carried(stage) == Some(original),
    ensures
        ({
            let turn = stop_turn(c, stage, reply);
            let n = turn.effects.len() as int;
            if turn.ask is Finished {
                &&& turn.effects[n - 3] matches StopEffect::SaveHistory {
                    transcription,
                    post_processed,
                    prompt,
                }
                &&& original.is_prefix_of(transcription)
                &&& turn.effects[n - 2] matches StopEffect::PasteThenIdle(pasted)
                &&& (post_processed == Some(pasted) || (post_processed is None && pasted
                    == original && transcription == original && prompt is None))
            } else {
                carried(turn.stage) == Some(original)
            }
        }),
{
}

/// The flow takes up a transcription only if it is not empty.
pub proof fn law_only_text_is_taken_up(c: StopContext, stage: StageModel, reply: StopReply)
    requires
        answers(stage, reply),
        carried(stage) matches Some(original) ==> original.len() > 0,
    ensures
        carried(stop_turn(c, stage, reply).stage) matches Some(original) ==> original.len() > 0,
{
}

/// Where a translation or a conversion fails and no post-processing follows,
/// the transcription itself is pasted.
pub proof fn law_failures_fall_back_to_transcription(
    c: StopContext,
    flow: Flow,
    original: Seq<char>,
    settings: AppSettings,
)
    requires
        !c.post_process,
    ensures
        stop_turn(
            c,
            StopStage::Translating { flow, original, settings },
            StopReply::Translated(None),
        ).effects[1] == StopEffect::PasteThenIdle(original),
        stop_turn(
            c,
            StopStage::Converting { flow, original, settings },
            StopReply::Converted(None),
        ).effects[1] == StopEffect::PasteThenIdle(original),
{
}

/// Where post-processing yields nothing, the text that it was given is pasted.
pub proof fn law_post_processing_falls_back_to_its_text(
    c: StopContext,
    flow: Flow,
    original: Seq<char>,
    text: Seq<char>,
    settings: AppSettings,
    answer: PostProcessReply,
)
    requires
        processed_text(answer) is None,
    ensures
        stop_turn(
            c,
            StopStage::PostProcessing { flow, original, text, settings },
            StopReply::PostProcessed(answer),
        ).effects[1] == StopEffect::PasteThenIdle(text),
{
}

/// Every reply of a run answers the question before it.
pub open spec fn run_answers(c: StopContext, stage: StageModel, replies: Seq<StopReply>) -> bool
    decreases replies.len(),
{
    replies.len() == 0 || (answers(stage, replies[0]) && run_answers(
        c,
        stop_turn(c, stage, replies[0]).stage,
        replies.drop_first(),
    ))
}

/// The stage that a run ends in.
pub open spec fn run_end(c: StopContext, stage: StageModel, replies: Seq<StopReply>) -> StageModel
    decreases replies.len(),
{
    if replies.len() == 0 {
        stage
    } else {
        run_end(c, stop_turn(c, stage, replies[0]).stage, replies.drop_first())
    }
}

/// The effects of a run.
pub open spec fn run_effects(c: StopContext, stage: StageModel, replies: Seq<StopReply>) -> Seq<
    StopEffect<Seq<char>>,
>
    decreases replies.len(),
{
    if replies.len() == 0 {
        Seq::empty()
    } else {
        stop_turn(c, stage, replies[0]).effects + run_effects(
            c,
            stop_turn(c, stage, replies[0]).stage,
            replies.drop_first(),
        )
    }
}

/// How often an effect of the given sort occurs.
pub open spec fn occurrences(
    effects: Seq<StopEffect<Seq<char>>>,
    sort: spec_fn(StopEffect<Seq<char>>) -> bool,
) -> nat
    decreases effects.len(),
{
    if effects.len() == 0 {
        0
    } else {
        occurrences(effects.drop_last(), sort) + if sort(effects.last()) {
            1nat
        } else {
            0nat
        }
    }
}

proof fn lemma_occurrences_two(
    a: Seq<StopEffect<Seq<char>>>,
    b: Seq<StopEffect<Seq<char>>>,
    sort: spec_fn(StopEffect<Seq<char>>) -> bool,
)
    ensures
        occurrences(a + b, sort) == occurrences(a, sort) + occurrences(b, sort),
    decreases b.len(),
{
    if b.len() == 0 {
        assert(a + b =~= a);
    } else {
        assert((a + b).drop_last() =~= a + b.drop_last());
        lemma_occurrences_two(a, b.drop_last(), sort);
    }
}

proof fn lemma_occurrences_none(
    effects: Seq<StopEffect<Seq<char>>>,
    sort: spec_fn(StopEffect<Seq<char>>) -> bool,
)
    requires
        forall|i: int| 0 <= i < effects.len() ==> !sort(#[trigger] effects[i]),
    ensures
        occurrences(effects, sort) == 0,
    decreases effects.len(),
{
    if effects.len() > 0 {
        lemma_occurrences_none(effects.drop_last(), sort);
    }
}

/// The sorts of effects that are counted.
pub open spec fn pastes() -> spec_fn(StopEffect<Seq<char>>) -> bool {
    |e: StopEffect<Seq<char>>| e is PasteThenIdle
}

pub open spec fn saves() -> spec_fn(StopEffect<Seq<char>>) -> bool {
    |e: StopEffect<Seq<char>>| e is SaveHistory
}

pub open spec fn clears() -> spec_fn(StopEffect<Seq<char>>) -> bool {
    |e: StopEffect<Seq<char>>| e is ClearToggle
}

proof fn lemma_turn_counts(c: StopContext, stage: StageModel, reply: StopReply)
    requires
        answers(stage, reply),
    ensures
        ({
            let turn = stop_turn(c, stage, reply);
            let ends = turn.ask is Finished;
            &&& occurrences(turn.effects, clears()) == if ends {
                1nat
            } else {
                0nat
            }
            &&& occurrences(turn.effects, pastes()) == occurrences(turn.effects, saves())
            &&& occurrences(turn.effects, pastes()) <= if ends {
                1nat
            } else {
                0nat
            }
        }),
{
    let turn = stop_turn(c, stage, reply);
    let n = turn.effects.len() as int;
    law_every_end_is_idle(c, stage, reply);
    if turn.ask is Finished {
        let head = turn.effects.take(n - 3);
        let tail = turn.effects.skip(n - 3);
        assert(turn.effects =~= head + tail);
        assert(forall|i: int| 0 <= i < head.len() ==> !closing(#[trigger] head[i]));
        lemma_occurrences_two(head, tail, clears());
        lemma_occurrences_two(head, tail, pastes());
        lemma_occurrences_two(head, tail, saves());
        lemma_occurrences_none(head, clears());
        lemma_occurrences_none(head, pastes());
        lemma_occurrences_none(head, saves());
        reveal_with_fuel(occurrences, 4);
        assert(tail.drop_last().drop_last().drop_last() =~= Seq::empty());
        assert(tail[0] is SaveHistory <==> tail[1] is PasteThenIdle);
    } else {
        lemma_occurrences_none(turn.effects, clears());
        lemma_occurrences_none(turn.effects, pastes());
        lemma_occurrences_none(turn.effects, saves());
    }
}

/// A run that comes to its end clears the toggle exactly once, and pastes and
/// saves together: both once, or neither.
pub proof fn law_run_pastes_at_most_once(c: StopContext, stage: StageModel, replies: Seq<StopReply>)
    requires
        run_answers(c, stage, replies),
        run_end(c, stage, replies) is Finished,
        stage !is Finished,
    ensures
        occurrences(run_effects(c, stage, replies), clears()) == 1,
        occurrences(run_effects(c, stage, replies), pastes()) <= 1,
        occurrences(run_effects(c, stage, replies), pastes()) == occurrences(
            run_effects(c, stage, replies),
            saves(),
        ),
    decreases replies.len(),
{
    let turn = stop_turn(c, stage, replies[0]);
    let rest = run_effects(c, turn.stage, replies.drop_first());
    law_flow_comes_to_an_end(c, stage, replies[0]);
    lemma_turn_counts(c, stage, replies[0]);
    lemma_occurrences_two(turn.effects, rest, clears());
    lemma_occurrences_two(turn.effects, rest, pastes());
    lemma_occurrences_two(turn.effects, rest, saves());
    if turn.stage is Finished {
        let left = replies.drop_first();
        assert(run_answers(c, turn.stage, left));
        assert(left.len() == 0 || answers(turn.stage, left[0]));
    } else {
        law_run_pastes_at_most_once(c, turn.stage, replies.drop_first());
    }
}

/// The replies of a batch transcription that succeeds.
pub open spec fn batch_replies(
    text: String,
    settings: AppSettings,
    converted: Option<String>,
) -> Seq<StopReply> {
    seq![
        StopReply::Taken(false),
        StopReply::Spawned,
        StopReply::Recorded(true),
        StopReply::Transcribed(Some(text)),
        StopReply::Settings(settings),
        StopReply::Converted(converted),
    ]
}

/// A batch transcription that yields a text comes to its end, and the text, or
/// what it was converted to, is pasted.
pub proof fn law_batch_transcription_is_pasted(
    c: StopContext,
    text: String,
    settings: AppSettings,
    converted: Option<String>,
)
    requires
        text@.len() > 0,
        !c.post_process,
    ensures
        ({
            let stage = StageModel::TakingIncremental { mistral: false };
            let replies = batch_replies(text, settings, converted);
            &&& run_answers(c, stage, replies)
            &&& run_end(c, stage, replies) is Finished
            &&& run_effects(c, stage, replies).contains(
                StopEffect::PasteThenIdle(or_original(optional_text(converted), text@)),
            )
        }),
{
    let all = batch_replies(text, settings, converted);
    let one = all.drop_first();
    let two = one.drop_first();
    let three = two.drop_first();
    let four = three.drop_first();
    let five = four.drop_first();
    let s0 = StageModel::TakingIncremental { mistral: false };
    let s1 = StageModel::Spawning { incremental: false, mistral: false };
    let s2 = StageModel::Recording { incremental: false };
    let s3 = StageModel::Transcribing { incremental: false };
    let s4 = StageModel::ReadingSettings { flow: Flow::Batch, original: text@ };
    let s5 = StageModel::Converting { flow: Flow::Batch, original: text@, settings };
    assert(stop_turn(c, s0, all[0]).stage == s1);
    assert(stop_turn(c, s1, one[0]).stage == s2);
    assert(stop_turn(c, s2, two[0]).stage == s3);
    assert(stop_turn(c, s3, three[0]).stage == s4);
    assert(stop_turn(c, s4, four[0]).stage == s5);
    assert(five.len() == 1 && five.drop_first().len() == 0);
    let last = stop_turn(c, s5, five[0]);
    let pasted = StopEffect::PasteThenIdle(or_original(optional_text(converted), text@));
    assert(last.effects[1] == pasted);
    assert(run_effects(c, last.stage, five.drop_first()) =~= Seq::empty());
    let e5 = run_effects(c, s5, five);
    assert(e5[1] == pasted);
    let e4 = run_effects(c, s4, four);
    assert(e4 =~= stop_turn(c, s4, four[0]).effects + e5);
    let e3 = run_effects(c, s3, three);
    let e2 = run_effects(c, s2, two);
    let e1 = run_effects(c, s1, one);
    let e0 = run_effects(c, s0, all);
    let n4 = stop_turn(c, s4, four[0]).effects.len();
    let n3 = stop_turn(c, s3, three[0]).effects.len();
    let n2 = stop_turn(c, s2, two[0]).effects.len();
    let n1 = stop_turn(c, s1, one[0]).effects.len();
    let n0 = stop_turn(c, s0, all[0]).effects.len();
    assert(e4[n4 as int + 1] == pasted);
    assert(e3[n3 as int + n4 + 1] == pasted);
    assert(e2[n2 as int + n3 + n4 + 1] == pasted);
    assert(e1[n1 as int + n2 + n3 + n4 + 1] == pasted);
    assert(e0[n0 as int + n1 + n2 + n3 + n4 + 1] == pasted);
    assert(run_answers(c, last.stage, five.drop_first()));
    assert(run_end(c, last.stage, five.drop_first()) is Finished);
    assert(run_answers(c, s5, five));
    assert(run_answers(c, s4, four));
    assert(run_answers(c, s3, three));
    assert(run_answers(c, s2, two));
    assert(run_answers(c, s1, one));
    assert(run_end(c, s5, five) is Finished);
    assert(run_end(c, s4, four) is Finished);
    assert(run_end(c, s3, three) is Finished);
    assert(run_end(c, s2, two) is Finished);
    assert(run_end(c, s1, one) is Finished);
}

} // verus!
