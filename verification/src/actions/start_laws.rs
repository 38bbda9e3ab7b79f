//! What a press of the transcription shortcut comes to, from its first turn to
//! its last.

use vstd::prelude::*;

use crate::actions::start::{
    first_turn, single_stream, start_turn, StartAsk, StartContext, StartEffect, StartReply,
    StartStage, TranscriptionMode, TranslatorSource,
};
use crate::actions::stop::TrayIconState;
use crate::settings::EngineType;

verus! {

/// How the questions of a press are answered, as far as they are asked.
pub struct PressAnswers {
    pub engine: Option<EngineType>,
    pub recording: bool,
    pub streaming: bool,
    pub capture: bool,
    pub vad_path: bool,
}

/// The answer to the question of a stage.
pub open spec fn press_answer(stage: StartStage, a: PressAnswers) -> StartReply {
    match stage {
        StartStage::AskingEngine => StartReply::Engine(a.engine),
        StartStage::StartingRecording(_) => StartReply::RecordingStarted(a.recording),
        StartStage::EnablingStreaming(_) => StartReply::StreamingEnabled(a.streaming),
        StartStage::StartingCapture => StartReply::CaptureStarted(a.capture),
        _ => StartReply::VadPathResolved(a.vad_path),
    }
}

/// The effects that follow an answer at `stage`, up to the end; `most` bounds how
/// many questions are answered.
pub open spec fn effects_from(c: StartContext, stage: StartStage, a: PressAnswers, most: nat) -> Seq<
    StartEffect<Seq<char>>,
>
    decreases most,
{
    if most == 0 {
        Seq::empty()
    } else {
        let turn = start_turn(c, stage, press_answer(stage, a));
        if turn.ask is Finished {
            turn.effects
        } else {
            turn.effects + effects_from(c, turn.stage, a, (most - 1) as nat)
        }
    }
}

/// The questions that follow an answer at `stage`, up to the end.
pub open spec fn asks_from(c: StartContext, stage: StartStage, a: PressAnswers, most: nat) -> Seq<
    StartAsk<Seq<char>>,
>
    decreases most,
{
    if most == 0 {
        Seq::empty()
    } else {
        let turn = start_turn(c, stage, press_answer(stage, a));
        if turn.ask is Finished {
            seq![turn.ask]
        } else {
            seq![turn.ask] + asks_from(c, turn.stage, a, (most - 1) as nat)
        }
    }
}

/// The effects of a press, in order. No press has more than four questions.
pub open spec fn press_effects(c: StartContext, a: PressAnswers) -> Seq<StartEffect<Seq<char>>> {
    first_turn(c).effects + effects_from(c, first_turn(c).stage, a, 4)
}

/// The questions of a press, in order.
pub open spec fn press_asks(c: StartContext, a: PressAnswers) -> Seq<StartAsk<Seq<char>>> {
    seq![first_turn(c).ask] + asks_from(c, first_turn(c).stage, a, 4)
}

/// Recordings stream to the Mistral service.
pub open spec fn to_mistral(c: StartContext) -> bool {
    c.settings.selected_model@ == "mistral-voxtral-realtime"@ && c.settings.mistral_api_key@.len()
        > 0
}

/// Recordings are transcribed by a fast local model while the user speaks.
pub open spec fn to_local_model(c: StartContext, a: PressAnswers) -> bool {
    &&& !to_mistral(c)
    &&& c.settings.realtime_transcription_enabled
    &&& (a.engine == Some(EngineType::Parakeet) || a.engine == Some(EngineType::Moonshine))
}

/// The system audio is transcribed beside the microphone.
pub open spec fn with_system_audio(c: StartContext) -> bool {
    to_mistral(c) && c.settings.audio_source is Mixed
}

/// A session can be had: the recording runs, and its audio can be streamed.
/// Beside the microphone, the system audio is to be had on macOS alone.
pub open spec fn can_stream(c: StartContext, a: PressAnswers) -> bool {
    &&& a.recording
    &&& (to_mistral(c) || to_local_model(c, a))
    &&& (with_system_audio(c) ==> c.platform is MacIntel || c.platform is MacApple)
}

/// A live translation of the text of `source`, where the settings want one.
pub open spec fn translation_of(c: StartContext, source: TranslatorSource) -> Seq<
    StartEffect<Seq<char>>,
> {
    if c.settings.streaming_translation_enabled {
        seq![StartEffect::StartTranslator { api_key: c.settings.mistral_api_key@, source }]
    } else {
        Seq::empty()
    }
}

/// The session that goes with a recording whose audio can be streamed.
///
/// For a fast local model it is an incremental one, if there is a voice activity
/// model. For the Mistral service it is one that shows its text, or for the
/// microphone beside the system audio two silent ones with a coordinator. A live
/// translation follows their text where the settings want one, and what is
/// started is stored.
pub open spec fn session_called_for(c: StartContext, a: PressAnswers) -> Seq<
    StartEffect<Seq<char>>,
> {
    let key = c.settings.mistral_api_key@;
    if to_local_model(c, a) {
        if a.vad_path {
            seq![StartEffect::StartIncrementalSession]
        } else {
            seq![StartEffect::DisableAudioStreaming]
        }
    } else if with_system_audio(c) && a.capture {
        seq![
            StartEffect::StartSystemBridge { sample_rate: 16000, frame_ms: 30 },
            StartEffect::StartSession { api_key: key, silent: true },
            StartEffect::StartSystemSession { api_key: key },
            StartEffect::StartCoordinator,
        ] + translation_of(c, TranslatorSource::Coordinator) + seq![
            StartEffect::<Seq<char>>::StoreSession,
            StartEffect::<Seq<char>>::StoreDualStream,
        ]
    } else {
        seq![StartEffect::StartSession { api_key: key, silent: false }] + translation_of(
            c,
            TranslatorSource::Session,
        ) + seq![StartEffect::<Seq<char>>::StoreSession]
    }
}

/// What follows a recording that has started: it can be cancelled, and it gets
/// the session that goes with it. Before the system audio is captured it is
/// unmuted.
pub open spec fn follows_recording(c: StartContext, a: PressAnswers) -> Seq<StartEffect<Seq<char>>> {
    let opening = if can_stream(c, a) && with_system_audio(c) {
        seq![StartEffect::<Seq<char>>::RegisterCancelShortcut, StartEffect::EnsureUnmuted]
    } else {
        seq![StartEffect::<Seq<char>>::RegisterCancelShortcut]
    };
    if can_stream(c, a) && a.streaming {
        opening + session_called_for(c, a)
    } else {
        opening
    }
}

proof fn lemma_from_recording(c: StartContext, a: PressAnswers, mode: TranscriptionMode, most: nat)
    requires
        most >= 3,
        mode == if to_mistral(c) {
            if c.settings.audio_source is Mixed {
                TranscriptionMode::DualStream
            } else {
                TranscriptionMode::SingleStream
            }
        } else if to_local_model(c, a) {
            TranscriptionMode::Incremental
        } else {
            TranscriptionMode::Batch
        },
    ensures
        effects_from(c, StartStage::StartingRecording(mode), a, most) == if !a.recording {
            Seq::empty()
        } else if c.settings.always_on_microphone {
            follows_recording(c, a)
        } else {
            seq![StartEffect::<Seq<char>>::FeedbackThenMute { delay_ms: 100 }]
                + follows_recording(c, a)
        },
{
    let stage = StartStage::StartingRecording(mode);
    let turn = start_turn(c, stage, press_answer(stage, a));
    let session = session_called_for(c, a);
    reveal_with_fuel(effects_from, 4);
    if a.recording {
        if mode is Batch {
            assert(turn.ask is Finished);
        } else if mode is Incremental {
            assert(Seq::empty() + session =~= session);
        } else if mode is SingleStream {
            assert(single_stream(c.settings) =~= session);
        } else if c.platform is MacIntel || c.platform is MacApple {
            let started = effects_from(c, StartStage::StartingCapture, a, (most - 2) as nat);
            assert(started =~= session);
            assert(Seq::empty() + session =~= session);
        }
        let sound = if c.settings.always_on_microphone {
            Seq::<StartEffect<Seq<char>>>::empty()
        } else {
            seq![StartEffect::<Seq<char>>::FeedbackThenMute { delay_ms: 100 }]
        };
        assert(effects_from(c, stage, a, most) =~= sound + follows_recording(c, a));
        assert(Seq::empty() + follows_recording(c, a) =~= follows_recording(c, a));
    }
}

/// What a press does.
///
/// The model is loaded and the user sees that a recording starts, with the
/// overlay for live text where text comes while the user speaks, and with a
/// panel for a translation where the Mistral service yields the text. With the
/// microphone always on the sound comes before the recording, else 100 ms after
/// it. Nothing more happens unless the recording starts.
pub proof fn law_what_a_press_does(c: StartContext, a: PressAnswers)
    ensures
        ({
            let shown = seq![
                StartEffect::InitiateModelLoad,
                StartEffect::SetTray(TrayIconState::Recording),
                if to_mistral(c) {
                    StartEffect::ShowStreamingOverlay { translation_panel: true }
                } else if to_local_model(c, a) {
                    StartEffect::ShowStreamingOverlay { translation_panel: false }
                } else {
                    StartEffect::ShowRecordingOverlay
                },
            ];
            press_effects(c, a) == match (c.settings.always_on_microphone, a.recording) {
                (true, true) => shown.push(StartEffect::FeedbackThenMute { delay_ms: 0 })
                    + follows_recording(c, a),
                (true, false) => shown.push(StartEffect::FeedbackThenMute { delay_ms: 0 }),
                (false, true) => shown.push(StartEffect::FeedbackThenMute { delay_ms: 100 })
                    + follows_recording(c, a),
                (false, false) => shown,
            }
        }),
{
    let mode = if to_mistral(c) {
        if c.settings.audio_source is Mixed {
            TranscriptionMode::DualStream
        } else {
            TranscriptionMode::SingleStream
        }
    } else if to_local_model(c, a) {
        TranscriptionMode::Incremental
    } else {
        TranscriptionMode::Batch
    };
    let rest = effects_from(c, StartStage::StartingRecording(mode), a, 4);
    lemma_from_recording(c, a, mode, 3);
    lemma_from_recording(c, a, mode, 4);
    reveal_with_fuel(effects_from, 2);
    let load = seq![StartEffect::<Seq<char>>::InitiateModelLoad];
    if c.settings.realtime_transcription_enabled {
        let turn = start_turn(c, StartStage::AskingEngine, StartReply::Engine(a.engine));
        assert(turn.stage == StartStage::StartingRecording(mode));
        assert(press_effects(c, a) =~= load + turn.effects + rest);
    }
}

/// An effect that starts or stores a session.
pub open spec fn about_sessions(effect: StartEffect<Seq<char>>) -> bool {
    match effect {
        StartEffect::StartSystemBridge { .. }
        | StartEffect::StartSession { .. }
        | StartEffect::StartSystemSession { .. }
        | StartEffect::StartCoordinator
        | StartEffect::StartTranslator { .. }
        | StartEffect::StoreSession
        | StartEffect::StoreDualStream
        | StartEffect::StartIncrementalSession => true,
        _ => false,
    }
}

/// A press starts the session that goes with the recording, at its end and once,
/// where the recording runs and its audio streams; before that, or without it,
/// it starts none.
pub proof fn law_a_press_ends_with_its_session(c: StartContext, a: PressAnswers)
    ensures
        ({
            let effects = press_effects(c, a);
            let session = session_called_for(c, a);
            let n = effects.len() - session.len();
            if can_stream(c, a) && a.streaming {
                &&& n >= 0
                &&& effects.skip(n) == session
                &&& forall|i: int| 0 <= i < n ==> !about_sessions(#[trigger] effects[i])
            } else {
                forall|i: int| 0 <= i < effects.len() ==> !about_sessions(#[trigger] effects[i])
            }
        }),
{
    law_what_a_press_does(c, a);
    let effects = press_effects(c, a);
    let session = session_called_for(c, a);
    let n = effects.len() - session.len();
    if can_stream(c, a) && a.streaming {
        assert(effects.skip(n) =~= session);
    }
}

/// A fast local model gets its incremental session, exactly one and as the last
/// effect, once the recording runs, its audio streams and the voice activity
/// model is found; and no other recording gets one.
pub proof fn law_a_local_model_gets_its_session(c: StartContext, a: PressAnswers)
    ensures
        ({
            let effects = press_effects(c, a);
            let due = can_stream(c, a) && a.streaming && to_local_model(c, a) && a.vad_path;
            &&& due ==> effects.last() is StartIncrementalSession
            &&& due ==> forall|i: int|
                0 <= i < effects.len() - 1 ==> !((#[trigger] effects[i])
                    is StartIncrementalSession)
            &&& !due ==> forall|i: int|
                0 <= i < effects.len() ==> !((#[trigger] effects[i]) is StartIncrementalSession)
        }),
{
    law_a_press_ends_with_its_session(c, a);
    let effects = press_effects(c, a);
    let session = session_called_for(c, a);
    let n = effects.len() - session.len();
    if can_stream(c, a) && a.streaming {
        assert forall|i: int| n <= i < effects.len() implies effects[i] == session[i - n] by {
            assert(effects.skip(n)[i - n] == effects[i]);
        }
        if to_local_model(c, a) {
            assert(session.len() == 1);
            assert(effects[effects.len() - 1] == session[0]);
        } else {
            assert forall|i: int| 0 <= i < session.len() implies !((#[trigger] session[i])
                is StartIncrementalSession) by {}
        }
    }
}

/// What a press asks: which engine runs the model, where that matters; to start
/// the recording; where that runs and its audio is wanted, to stream it; and
/// with that, to capture the system audio, or for the path of the voice activity
/// model. Then it has ended.
pub proof fn law_what_a_press_asks(c: StartContext, a: PressAnswers)
    ensures
        press_asks(c, a) == (if c.settings.realtime_transcription_enabled {
            seq![StartAsk::ModelEngine { model: c.settings.selected_model@ }]
        } else {
            Seq::empty()
        }) + seq![StartAsk::TryStartRecording { binding: c.binding }] + (if !can_stream(c, a) {
            Seq::empty()
        } else if !a.streaming {
            seq![StartAsk::EnableAudioStreaming]
        } else if to_local_model(c, a) {
            seq![StartAsk::EnableAudioStreaming, StartAsk::ResolveVadPath]
        } else if with_system_audio(c) {
            seq![StartAsk::EnableAudioStreaming, StartAsk::StartSystemCapture]
        } else {
            seq![StartAsk::EnableAudioStreaming]
        }) + seq![StartAsk::<Seq<char>>::Finished],
{
    reveal_with_fuel(asks_from, 5);
}

} // verus!
