//! What a release of the transcription shortcut comes to, from its first turn
//! to its last.

use vstd::prelude::*;
use vstd::string::*;

use crate::actions::post_process::{
    post_process_plan, processed_text, PostProcessPlan, PostProcessReply,
};
use crate::actions::stop::{
    stop_turn, Flow, StageModel, StopAsk, StopContext, StopEffect, StopReply, StopStage,
    TrayIconState,
};
use crate::managers::dual_stream::{final_text, segments_of};
use crate::managers::streaming_translator::likely_english;
use crate::settings::AppSettings;
use crate::text::replaced;

verus! {

/// How the questions of a release are answered, as far as they are asked.
pub struct ReleaseAnswers {
    /// There was an incremental session.
    pub incremental: bool,
    /// There were samples.
    pub recorded: bool,
    /// What the samples were transcribed to.
    pub transcription: Option<String>,
    /// What the incremental session had accumulated.
    pub preview: String,
    /// There were dual-stream parts.
    pub dual: bool,
    pub segments: Vec<(String, bool)>,
    /// The text of the session of the microphone.
    pub mic_text: String,
    /// The text of the session of the system audio.
    pub sys_text: String,
    pub settings: AppSettings,
    pub converted: Option<String>,
    pub translated: Option<String>,
    pub post_processed: PostProcessReply,
}

/// The answer to the question of a stage.
pub open spec fn release_answer(stage: StageModel, a: ReleaseAnswers) -> StopReply {
    match stage {
        StopStage::TakingIncremental { .. } => StopReply::Taken(a.incremental),
        StopStage::Recording { .. } => StopReply::Recorded(a.recorded),
        StopStage::Transcribing { .. } => StopReply::Transcribed(a.transcription),
        StopStage::Accumulating => StopReply::Text(a.preview),
        StopStage::TakingDual => StopReply::Taken(a.dual),
        StopStage::StoppingCoordinator => StopReply::Segments(a.segments),
        StopStage::StoppingMic { .. } | StopStage::StoppingSingle => StopReply::Text(a.mic_text),
        StopStage::StoppingSystem { .. } => StopReply::Text(a.sys_text),
        StopStage::ReadingSettings { .. } => StopReply::Settings(a.settings),
        StopStage::Converting { .. } => StopReply::Converted(a.converted),
        StopStage::Translating { .. } => StopReply::Translated(a.translated),
        StopStage::PostProcessing { .. } => StopReply::PostProcessed(a.post_processed),
        StopStage::Spawning { .. } | StopStage::Finished => StopReply::Spawned,
    }
}

/// The effects that follow an answer at `stage`, up to the end; `most` bounds how
/// many questions are answered.
pub open spec fn effects_from(
    c: StopContext,
    stage: StageModel,
    a: ReleaseAnswers,
    most: nat,
) -> Seq<StopEffect<Seq<char>>>
    decreases most,
{
    if most == 0 {
        Seq::empty()
    } else {
        let turn = stop_turn(c, stage, release_answer(stage, a));
        if turn.ask is Finished {
            turn.effects
        } else {
            turn.effects + effects_from(c, turn.stage, a, (most - 1) as nat)
        }
    }
}

/// The questions that follow an answer at `stage`, up to the end.
pub open spec fn asks_from(c: StopContext, stage: StageModel, a: ReleaseAnswers, most: nat) -> Seq<
    StopAsk<Seq<char>>,
>
    decreases most,
{
    if most == 0 {
        Seq::empty()
    } else {
        let turn = stop_turn(c, stage, release_answer(stage, a));
        if turn.ask is Finished {
            seq![turn.ask]
        } else {
            seq![turn.ask] + asks_from(c, turn.stage, a, (most - 1) as nat)
        }
    }
}

/// The text that is delivered unless post-processing yields another: where a
/// stream is to be translated the translation, unless the transcription is
/// English or there is none; otherwise, but for two streams, the conversion,
/// where there is one.
pub open spec fn text_of(flow: Flow, original: Seq<char>, a: ReleaseAnswers) -> Seq<char> {
    let replacement = if flow !is Batch && a.settings.streaming_translation_enabled {
        if likely_english(original) {
            None
        } else {
            a.translated
        }
    } else if flow is DualStream {
        None
    } else {
        a.converted
    };
    match replacement {
        Some(text) => text@,
        None => original,
    }
}

/// What post-processing makes of the text, where it is wanted and possible.
pub open spec fn processed_of(c: StopContext, text: Seq<char>, a: ReleaseAnswers) -> Option<
    Seq<char>,
> {
    if c.post_process && !(post_process_plan(a.settings, text, c.platform) is Skip) {
        processed_text(a.post_processed)
    } else {
        None
    }
}

/// The end of a release that has found a transcription: what is pasted, and
/// what the history keeps of it.
pub open spec fn ending(c: StopContext, flow: Flow, original: Seq<char>, a: ReleaseAnswers) -> Seq<
    StopEffect<Seq<char>>,
> {
    let text = text_of(flow, original, a);
    let processed = processed_of(c, text, a);
    let pasted = match processed {
        Some(p) => p,
        None => text,
    };
    let translating = flow !is Batch && a.settings.streaming_translation_enabled;
    (if c.post_process {
        seq![StopEffect::<Seq<char>>::ShowProcessingOverlay]
    } else {
        Seq::empty()
    }) + seq![
        StopEffect::SaveHistory {
            transcription: if translating && pasted != original {
                original + "\n\n---\n\n"@ + pasted
            } else {
                original
            },
            post_processed: if processed is Some || text != original {
                Some(pasted)
            } else {
                None
            },
            prompt: if processed is Some {
                a.settings.selected_prompt_text()
            } else {
                None
            },
        },
        StopEffect::PasteThenIdle(pasted),
        StopEffect::ClearToggle(c.binding),
    ]
}

proof fn lemma_from_settings(
    c: StopContext,
    flow: Flow,
    original: Seq<char>,
    a: ReleaseAnswers,
    most: nat,
)
    requires
        most >= 3,
    ensures
        effects_from(c, StopStage::ReadingSettings { flow, original }, a, most) == ending(
            c,
            flow,
            original,
            a,
        ),
{
    let s0 = StageModel::ReadingSettings { flow, original };
    let settings = a.settings;
    let text = text_of(flow, original, a);
    let end = ending(c, flow, original, a);
    let s3 = StageModel::PostProcessing { flow, original, text, settings };
    let last = stop_turn(c, s3, release_answer(s3, a));
    reveal_with_fuel(effects_from, 4);
    let t0 = stop_turn(c, s0, release_answer(s0, a));
    let t1 = stop_turn(c, t0.stage, release_answer(t0.stage, a));
    let before = t0.effects + t1.effects;
    if t0.stage is Translating || t0.stage is Converting {
        assert(t0.effects =~= Seq::empty());
        if c.post_process && !(post_process_plan(settings, text, c.platform) is Skip) {
            assert(t1.stage == s3);
            assert(t1.effects + last.effects =~= end);
        } else {
            assert(t1.effects =~= end);
        }
        assert(effects_from(c, s0, a, most) =~= end);
    } else {
        if c.post_process && !(post_process_plan(settings, text, c.platform) is Skip) {
            assert(t0.stage == s3);
            assert(t0.effects + last.effects =~= end);
        } else {
            assert(t0.effects =~= end);
        }
    }
}

/// Text comes while the user speaks, by the Mistral service.
pub open spec fn streamed(mistral: bool, a: ReleaseAnswers) -> bool {
    mistral && !a.incremental
}

/// Two streams were transcribed, which only macOS does.
pub open spec fn two_streams(c: StopContext, mistral: bool, a: ReleaseAnswers) -> bool {
    streamed(mistral, a) && a.dual && (c.platform is MacIntel || c.platform is MacApple)
}

/// The transcription that is found.
///
/// Two streams yield their merged text, and one stream its own. Otherwise the
/// samples are transcribed, where there are any; an incremental session steps in
/// with its preview where that fails or yields nothing.
pub open spec fn found(c: StopContext, mistral: bool, a: ReleaseAnswers) -> Seq<char> {
    if two_streams(c, mistral, a) {
        final_text(segments_of(a.segments@), a.mic_text@, a.sys_text@)
    } else if streamed(mistral, a) {
        a.mic_text@
    } else if !a.recorded {
        Seq::empty()
    } else {
        match a.transcription {
            Some(text) => if text@.len() == 0 && a.incremental {
                a.preview@
            } else {
                text@
            },
            None => if a.incremental {
                a.preview@
            } else {
                Seq::empty()
            },
        }
    }
}

/// The way of transcribing that has found it.
pub open spec fn flow_of(c: StopContext, mistral: bool, a: ReleaseAnswers) -> Flow {
    if two_streams(c, mistral, a) {
        Flow::DualStream
    } else if streamed(mistral, a) {
        Flow::SingleStream
    } else {
        Flow::Batch
    }
}

/// What a release does until the transcription is known. The system is unmuted
/// before the sound is played. What streams is stopped, and where samples are
/// transcribed the user sees that.
pub open spec fn beginning(c: StopContext, mistral: bool, a: ReleaseAnswers) -> Seq<
    StopEffect<Seq<char>>,
> {
    if a.incremental {
        seq![
            StopEffect::RemoveMute,
            StopEffect::PlayStopSound,
            StopEffect::DisableAudioStreaming,
            StopEffect::StopIncrementalSession,
            StopEffect::SetTray(TrayIconState::Transcribing),
            StopEffect::ShowTranscribingOverlay,
        ]
    } else if two_streams(c, mistral, a) {
        seq![
            StopEffect::RemoveMute,
            StopEffect::PlayStopSound,
            StopEffect::DisableAudioStreaming,
            StopEffect::StopTranslator,
            StopEffect::StopSystemCapture,
            StopEffect::StopRecording,
        ]
    } else if mistral {
        seq![
            StopEffect::RemoveMute,
            StopEffect::PlayStopSound,
            StopEffect::DisableAudioStreaming,
            StopEffect::StopTranslator,
            StopEffect::StopRecording,
        ]
    } else {
        seq![
            StopEffect::SetTray(TrayIconState::Transcribing),
            StopEffect::ShowTranscribingOverlay,
            StopEffect::RemoveMute,
            StopEffect::PlayStopSound,
        ]
    }
}

/// The end of a release that has found nothing.
pub open spec fn idle_ending(c: StopContext) -> Seq<StopEffect<Seq<char>>> {
    seq![
        StopEffect::HideOverlay,
        StopEffect::SetTray(TrayIconState::Idle),
        StopEffect::ClearToggle(c.binding),
    ]
}

/// What a release does: it ends what records and streams, and where a
/// transcription is found pastes it, translated, converted and post-processed as
/// the settings and the shortcut want; where none is found it goes back to idle.
pub proof fn law_what_a_release_does(c: StopContext, mistral: bool, a: ReleaseAnswers)
    ensures
        effects_from(c, StopStage::TakingIncremental { mistral }, a, 10) == beginning(c, mistral, a)
            + if found(c, mistral, a).len() == 0 {
            idle_ending(c)
        } else {
            ending(c, flow_of(c, mistral, a), found(c, mistral, a), a)
        },
{
    let text = found(c, mistral, a);
    let flow = flow_of(c, mistral, a);
    let end = if text.len() == 0 {
        idle_ending(c)
    } else {
        ending(c, flow, text, a)
    };
    let s0 = StageModel::TakingIncremental { mistral };
    let s1 = StageModel::Spawning { incremental: a.incremental, mistral };
    let t0 = stop_turn(c, s0, release_answer(s0, a));
    let t1 = stop_turn(c, s1, release_answer(s1, a));
    assert(t0.stage == s1);
    assert(effects_from(c, s0, a, 10) == t0.effects + effects_from(c, s1, a, 9));
    assert(effects_from(c, s1, a, 9) == t1.effects + effects_from(c, t1.stage, a, 8));
    if streamed(mistral, a) {
        lemma_streamed(c, mistral, a);
    } else {
        lemma_recorded(c, mistral, a);
    }
    assert(effects_from(c, s0, a, 10) =~= beginning(c, mistral, a) + end);
}

proof fn lemma_recorded(c: StopContext, mistral: bool, a: ReleaseAnswers)
    requires
        !streamed(mistral, a),
    ensures
        effects_from(c, StopStage::Recording { incremental: a.incremental }, a, 8) == if found(
            c,
            mistral,
            a,
        ).len() == 0 {
            idle_ending(c)
        } else {
            ending(c, Flow::Batch, found(c, mistral, a), a)
        },
{
    let incremental = a.incremental;
    let text = found(c, mistral, a);
    let s2 = StageModel::Recording { incremental };
    let s3 = StageModel::Transcribing { incremental };
    let s4 = StageModel::Accumulating;
    let t2 = stop_turn(c, s2, release_answer(s2, a));
    let t3 = stop_turn(c, s3, release_answer(s3, a));
    let t4 = stop_turn(c, s4, release_answer(s4, a));
    let ended = Seq::<StopEffect<Seq<char>>>::empty() + idle_ending(c);
    assert(ended =~= idle_ending(c));
    if a.recorded {
        assert(effects_from(c, s2, a, 8) =~= effects_from(c, s3, a, 7));
        lemma_from_settings(c, Flow::Batch, text, a, 6);
        lemma_from_settings(c, Flow::Batch, text, a, 5);
        if t3.stage is Accumulating {
            assert(effects_from(c, s3, a, 7) =~= effects_from(c, s4, a, 6));
            if text.len() > 0 {
                assert(effects_from(c, s4, a, 6) =~= effects_from(c, t4.stage, a, 5));
            }
        } else if text.len() > 0 {
            assert(effects_from(c, s3, a, 7) =~= effects_from(c, t3.stage, a, 6));
        }
    }
}

proof fn lemma_streamed(c: StopContext, mistral: bool, a: ReleaseAnswers)
    requires
        streamed(mistral, a),
    ensures
        effects_from(c, StopStage::TakingDual, a, 8) == beginning(c, mistral, a).skip(2) + if found(
            c,
            mistral,
            a,
        ).len() == 0 {
            idle_ending(c)
        } else {
            ending(c, flow_of(c, mistral, a), found(c, mistral, a), a)
        },
{
    let text = found(c, mistral, a);
    let flow = flow_of(c, mistral, a);
    let segments = segments_of(a.segments@);
    let s2 = StageModel::TakingDual;
    let t2 = stop_turn(c, s2, release_answer(s2, a));
    assert(effects_from(c, s2, a, 8) == t2.effects + effects_from(c, t2.stage, a, 7));
    if two_streams(c, mistral, a) {
        let s3 = StageModel::StoppingCoordinator;
        let s4 = StageModel::StoppingMic { segments };
        let s5 = StageModel::StoppingSystem { segments, mic_final: a.mic_text@ };
        let t5 = stop_turn(c, s5, release_answer(s5, a));
        assert(effects_from(c, s3, a, 7) =~= effects_from(c, s4, a, 6));
        assert(effects_from(c, s4, a, 6) =~= effects_from(c, s5, a, 5));
        if text.len() > 0 {
            lemma_from_settings(c, flow, text, a, 4);
            assert(effects_from(c, s5, a, 5) == t5.effects + effects_from(c, t5.stage, a, 4));
        }
        assert(effects_from(c, s2, a, 8) =~= beginning(c, mistral, a).skip(2) + if text.len() == 0 {
            idle_ending(c)
        } else {
            ending(c, flow, text, a)
        });
    } else {
        let s3 = StageModel::StoppingSingle;
        let t3 = stop_turn(c, s3, release_answer(s3, a));
        if text.len() > 0 {
            lemma_from_settings(c, flow, text, a, 6);
            assert(effects_from(c, s3, a, 7) == t3.effects + effects_from(c, t3.stage, a, 6));
        }
        assert(effects_from(c, s2, a, 8) =~= beginning(c, mistral, a).skip(2) + if text.len() == 0 {
            idle_ending(c)
        } else {
            ending(c, flow, text, a)
        });
    }
}

/// The questions about a transcription that is found: the settings; then for a
/// stream that is to be translated, unless it is English, its translation; for
/// any other but two streams its conversion; and the answer of a language model
/// to the text that came of that, if the shortcut wants it and it is possible.
pub open spec fn questions(c: StopContext, flow: Flow, original: Seq<char>, a: ReleaseAnswers) -> Seq<
    StopAsk<Seq<char>>,
> {
    let plan = post_process_plan(a.settings, text_of(flow, original, a), c.platform);
    seq![StopAsk::<Seq<char>>::ReadSettings] + (if flow !is Batch
        && a.settings.streaming_translation_enabled {
        if likely_english(original) {
            Seq::empty()
        } else {
            seq![
                StopAsk::Translate {
                    api_key: a.settings.mistral_api_key@,
                    model: "mistral-medium-latest"@,
                    text: original,
                },
            ]
        }
    } else if flow is DualStream {
        Seq::empty()
    } else {
        seq![StopAsk::ConvertChinese { language: a.settings.selected_language@, text: original }]
    }) + (if c.post_process && !(plan is Skip) {
        seq![StopAsk::PostProcess(plan)]
    } else {
        Seq::empty()
    })
}

proof fn lemma_asks_from_settings(
    c: StopContext,
    flow: Flow,
    original: Seq<char>,
    a: ReleaseAnswers,
    most: nat,
)
    requires
        most >= 3,
    ensures
        seq![StopAsk::<Seq<char>>::ReadSettings] + asks_from(
            c,
            StopStage::ReadingSettings { flow, original },
            a,
            most,
        ) == questions(c, flow, original, a) + seq![StopAsk::<Seq<char>>::Finished],
{
    reveal_with_fuel(asks_from, 4);
    let s0 = StageModel::ReadingSettings { flow, original };
    let t0 = stop_turn(c, s0, release_answer(s0, a));
    if t0.stage is Translating || t0.stage is Converting {
        let t1 = stop_turn(c, t0.stage, release_answer(t0.stage, a));
        assert(t1.ask is Finished || t1.stage is PostProcessing);
    }
    assert(seq![StopAsk::<Seq<char>>::ReadSettings] + asks_from(c, s0, a, most) =~= questions(
        c,
        flow,
        original,
        a,
    ) + seq![StopAsk::<Seq<char>>::Finished]);
}

/// The questions by which a release comes to a transcription.
pub open spec fn search(c: StopContext, mistral: bool, a: ReleaseAnswers) -> Seq<
    StopAsk<Seq<char>>,
> {
    if two_streams(c, mistral, a) {
        seq![
            StopAsk::Spawn,
            StopAsk::TakeDualStream,
            StopAsk::StopCoordinator,
            StopAsk::StopSession,
            StopAsk::StopSystemSession,
        ]
    } else if streamed(mistral, a) {
        seq![StopAsk::Spawn, StopAsk::TakeDualStream, StopAsk::StopSession]
    } else if !a.recorded {
        seq![StopAsk::Spawn, StopAsk::StopRecording]
    } else if a.incremental && !(a.transcription matches Some(text) && text@.len() > 0) {
        seq![
            StopAsk::Spawn,
            StopAsk::StopRecording,
            StopAsk::Transcribe,
            StopAsk::AccumulatedText,
        ]
    } else {
        seq![StopAsk::Spawn, StopAsk::StopRecording, StopAsk::Transcribe]
    }
}

/// The questions about what was found, if anything was, and the end.
pub open spec fn closing_questions(c: StopContext, mistral: bool, a: ReleaseAnswers) -> Seq<
    StopAsk<Seq<char>>,
> {
    if found(c, mistral, a).len() == 0 {
        seq![StopAsk::<Seq<char>>::Finished]
    } else {
        questions(c, flow_of(c, mistral, a), found(c, mistral, a), a) + seq![
            StopAsk::<Seq<char>>::Finished,
        ]
    }
}

proof fn lemma_asks_recorded(c: StopContext, mistral: bool, a: ReleaseAnswers)
    requires
        !streamed(mistral, a),
    ensures
        asks_from(c, StopStage::Recording { incremental: a.incremental }, a, 8) == search(
            c,
            mistral,
            a,
        ).skip(2) + closing_questions(c, mistral, a),
{
    let incremental = a.incremental;
    let text = found(c, mistral, a);
    let rest = closing_questions(c, mistral, a);
    let s2 = StageModel::Recording { incremental };
    let s3 = StageModel::Transcribing { incremental };
    let s4 = StageModel::Accumulating;
    if a.recorded {
        lemma_asks_from_settings(c, Flow::Batch, text, a, 5);
        lemma_asks_from_settings(c, Flow::Batch, text, a, 6);
        assert(asks_from(c, s2, a, 8) == seq![StopAsk::<Seq<char>>::Transcribe] + asks_from(
            c,
            s3,
            a,
            7,
        ));
        if a.incremental && !(a.transcription matches Some(text) && text@.len() > 0) {
            assert(asks_from(c, s3, a, 7) == seq![StopAsk::<Seq<char>>::AccumulatedText]
                + asks_from(c, s4, a, 6));
            assert(asks_from(c, s4, a, 6) == rest);
        } else {
            assert(asks_from(c, s3, a, 7) == rest);
        }
    } else {
        assert(asks_from(c, s2, a, 8) == rest);
    }
    assert(asks_from(c, s2, a, 8) =~= search(c, mistral, a).skip(2) + rest);
}

proof fn lemma_asks_streamed(c: StopContext, mistral: bool, a: ReleaseAnswers)
    requires
        streamed(mistral, a),
    ensures
        asks_from(c, StopStage::TakingDual, a, 8) == search(c, mistral, a).skip(2)
            + closing_questions(c, mistral, a),
{
    let text = found(c, mistral, a);
    let flow = flow_of(c, mistral, a);
    let rest = closing_questions(c, mistral, a);
    let segments = segments_of(a.segments@);
    let s2 = StageModel::TakingDual;
    lemma_asks_from_settings(c, flow, text, a, 4);
    lemma_asks_from_settings(c, flow, text, a, 6);
    if two_streams(c, mistral, a) {
        let s3 = StageModel::StoppingCoordinator;
        let s4 = StageModel::StoppingMic { segments };
        let s5 = StageModel::StoppingSystem { segments, mic_final: a.mic_text@ };
        assert(asks_from(c, s2, a, 8) == seq![StopAsk::<Seq<char>>::StopCoordinator] + asks_from(
            c,
            s3,
            a,
            7,
        ));
        assert(asks_from(c, s3, a, 7) == seq![StopAsk::<Seq<char>>::StopSession] + asks_from(
            c,
            s4,
            a,
            6,
        ));
        assert(asks_from(c, s4, a, 6) == seq![StopAsk::<Seq<char>>::StopSystemSession] + asks_from(
            c,
            s5,
            a,
            5,
        ));
        assert(asks_from(c, s5, a, 5) == rest);
    } else {
        let s3 = StageModel::StoppingSingle;
        assert(asks_from(c, s2, a, 8) == seq![StopAsk::<Seq<char>>::StopSession] + asks_from(
            c,
            s3,
            a,
            7,
        ));
        assert(asks_from(c, s3, a, 7) == rest);
    }
    assert(asks_from(c, s2, a, 8) =~= search(c, mistral, a).skip(2) + rest);
}

proof fn lemma_two_ahead<A>(all: Seq<A>, rest: Seq<A>)
    requires
        all.len() >= 2,
    ensures
        seq![all[0]] + (seq![all[1]] + (all.skip(2) + rest)) == all + rest,
{
    assert(seq![all[0]] + (seq![all[1]] + (all.skip(2) + rest)) =~= all + rest);
}

/// What a release asks: first for the transcription, and where one is found,
/// what is to become of it.
pub proof fn law_what_a_release_asks(c: StopContext, mistral: bool, a: ReleaseAnswers)
    ensures
        asks_from(c, StopStage::TakingIncremental { mistral }, a, 10) == search(c, mistral, a)
            + closing_questions(c, mistral, a),
{
    let s0 = StageModel::TakingIncremental { mistral };
    let s1 = StageModel::Spawning { incremental: a.incremental, mistral };
    let t1 = stop_turn(c, s1, release_answer(s1, a));
    let all = search(c, mistral, a);
    assert(asks_from(c, s0, a, 10) == seq![StopAsk::<Seq<char>>::Spawn] + asks_from(c, s1, a, 9));
    assert(asks_from(c, s1, a, 9) == seq![t1.ask] + asks_from(c, t1.stage, a, 8));
    if streamed(mistral, a) {
        lemma_asks_streamed(c, mistral, a);
    } else {
        lemma_asks_recorded(c, mistral, a);
    }
    assert(all[0] is Spawn && all[1] == t1.ask);
    lemma_two_ahead(all, closing_questions(c, mistral, a));
}

/// The prompt that a plan sends.
pub open spec fn prompt_of(ask: StopAsk<Seq<char>>) -> Option<Seq<char>> {
    match ask {
        StopAsk::PostProcess(PostProcessPlan::AppleIntelligence { prompt, .. }) => Some(prompt),
        StopAsk::PostProcess(PostProcessPlan::Chat { prompt, .. }) => Some(prompt),
        _ => None,
    }
}

/// What is post-processed is the text that the translation or the conversion
/// has yielded: it stands in the selected prompt in place of `${output}`, and
/// the transcription before it has no influence on what is asked.
pub proof fn law_the_new_text_is_post_processed(
    c: StopContext,
    flow: Flow,
    settings: AppSettings,
    original: Seq<char>,
    other: Seq<char>,
    text: String,
)
    requires
        c.post_process,
    ensures
        ({
            let translated = |o: Seq<char>|
                stop_turn(
                    c,
                    StopStage::Translating { flow, original: o, settings },
                    StopReply::Translated(Some(text)),
                );
            let converted = |o: Seq<char>|
                stop_turn(
                    c,
                    StopStage::Converting { flow, original: o, settings },
                    StopReply::Converted(Some(text)),
                );
            &&& translated(original).ask == translated(other).ask
            &&& converted(original).ask == translated(original).ask
            &&& prompt_of(translated(original).ask) matches Some(sent) ==> {
                &&& settings.selected_prompt_text() matches Some(prompt)
                &&& sent == replaced(prompt, "${output}"@, text@)
            }
        }),
{
}

/// Where neither a translation nor a conversion yields a text, the transcription
/// itself is post-processed.
pub proof fn law_without_a_new_text_the_transcription_is_post_processed(
    c: StopContext,
    flow: Flow,
    settings: AppSettings,
    original: Seq<char>,
)
    requires
        c.post_process,
    ensures
        ({
            let translated = stop_turn(
                c,
                StopStage::Translating { flow, original, settings },
                StopReply::Translated(None),
            );
            let converted = stop_turn(
                c,
                StopStage::Converting { flow, original, settings },
                StopReply::Converted(None),
            );
            &&& translated.ask == converted.ask
            &&& prompt_of(translated.ask) matches Some(sent) ==> {
                &&& settings.selected_prompt_text() matches Some(prompt)
                &&& sent == replaced(prompt, "${output}"@, original)
            }
        }),
{
}

} // verus!
