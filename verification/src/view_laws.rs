//! What the mathematical contents of effects, questions and answers are: each
//! stands for itself, with its texts in place of its strings.

use vstd::prelude::*;

use crate::actions::post_process::PostProcessPlan;
use crate::actions::start::{start_effects_of, StartAsk, StartEffect};
use crate::actions::stop::{effects_of, StopAsk, StopEffect};
use crate::audio_toolkit::system_audio::capture::{entries_of, AggregateEntry, CaptureAsk};
use crate::managers::audio::{AudioAsk, AudioOutcome};
use crate::managers::dual_stream::segments_of;
use crate::managers::mute::MuteCommand;
use crate::text::{optional_text, texts};

verus! {

/// Lists of strings, of segments and of effects are told item by item.
pub proof fn law_lists_are_told_item_by_item(
    strings: Seq<String>,
    segments: Seq<(String, bool)>,
    start: Seq<StartEffect<String>>,
    stop: Seq<StopEffect<String>>,
    i: int,
)
    ensures
        texts(strings).len() == strings.len(),
        0 <= i < strings.len() ==> texts(strings)[i] == strings[i]@,
        segments_of(segments).len() == segments.len(),
        0 <= i < segments.len() ==> segments_of(segments)[i] == (segments[i].0@, segments[i].1),
        start_effects_of(start).len() == start.len(),
        0 <= i < start.len() ==> start_effects_of(start)[i] == start[i]@,
        effects_of(stop).len() == stop.len(),
        0 <= i < stop.len() ==> effects_of(stop)[i] == stop[i]@,
{
}

/// An effect of a press stands for itself.
pub proof fn law_effects_of_a_press(effect: StartEffect<String>)
    ensures
        match effect {
            StartEffect::InitiateModelLoad => effect@ is InitiateModelLoad,
            StartEffect::SetTray(icon) => effect@ == StartEffect::<Seq<char>>::SetTray(icon),
            StartEffect::ShowRecordingOverlay => effect@ is ShowRecordingOverlay,
            StartEffect::ShowStreamingOverlay { translation_panel } => effect@ == (StartEffect::<
                Seq<char>,
            >::ShowStreamingOverlay { translation_panel }),
            StartEffect::FeedbackThenMute { delay_ms } => effect@ == (StartEffect::<
                Seq<char>,
            >::FeedbackThenMute { delay_ms }),
            StartEffect::RegisterCancelShortcut => effect@ is RegisterCancelShortcut,
            StartEffect::EnsureUnmuted => effect@ is EnsureUnmuted,
            StartEffect::StartSystemBridge { sample_rate, frame_ms } => effect@ == (StartEffect::<
                Seq<char>,
            >::StartSystemBridge { sample_rate, frame_ms }),
            StartEffect::StartSession { api_key, silent } => effect@ == (
            StartEffect::StartSession { api_key: api_key@, silent }),
            StartEffect::StartSystemSession { api_key } => effect@ == (
            StartEffect::StartSystemSession { api_key: api_key@ }),
            StartEffect::StartCoordinator => effect@ is StartCoordinator,
            StartEffect::StartTranslator { api_key, source } => effect@ == (
            StartEffect::StartTranslator { api_key: api_key@, source }),
            StartEffect::StoreSession => effect@ is StoreSession,
            StartEffect::StoreDualStream => effect@ is StoreDualStream,
            StartEffect::StartIncrementalSession => effect@ is StartIncrementalSession,
            StartEffect::DisableAudioStreaming => effect@ is DisableAudioStreaming,
        },
{
}

/// A question of a press stands for itself.
pub proof fn law_questions_of_a_press(ask: StartAsk<String>)
    ensures
        match ask {
            StartAsk::ModelEngine { model } => ask@ == (StartAsk::ModelEngine { model: model@ }),
            StartAsk::TryStartRecording { binding } => ask@ == (StartAsk::TryStartRecording {
                binding: binding@,
            }),
            StartAsk::EnableAudioStreaming => ask@ is EnableAudioStreaming,
            StartAsk::StartSystemCapture => ask@ is StartSystemCapture,
            StartAsk::ResolveVadPath => ask@ is ResolveVadPath,
            StartAsk::Finished => ask@ is Finished,
        },
{
}

/// An effect of a release stands for itself.
pub proof fn law_effects_of_a_release(effect: StopEffect<String>)
    ensures
        match effect {
            StopEffect::UnregisterCancelShortcut => effect@ is UnregisterCancelShortcut,
            StopEffect::SetTray(icon) => effect@ == StopEffect::<Seq<char>>::SetTray(icon),
            StopEffect::ShowTranscribingOverlay => effect@ is ShowTranscribingOverlay,
            StopEffect::ShowProcessingOverlay => effect@ is ShowProcessingOverlay,
            StopEffect::HideOverlay => effect@ is HideOverlay,
            StopEffect::RemoveMute => effect@ is RemoveMute,
            StopEffect::PlayStopSound => effect@ is PlayStopSound,
            StopEffect::DisableAudioStreaming => effect@ is DisableAudioStreaming,
            StopEffect::StopIncrementalSession => effect@ is StopIncrementalSession,
            StopEffect::StopTranslator => effect@ is StopTranslator,
            StopEffect::StopSystemCapture => effect@ is StopSystemCapture,
            StopEffect::StopRecording => effect@ is StopRecording,
            StopEffect::SaveHistory { transcription, post_processed, prompt } => effect@ == (
            StopEffect::SaveHistory {
                transcription: transcription@,
                post_processed: match post_processed {
                    Some(text) => Some(text@),
                    None => None,
                },
                prompt: match prompt {
                    Some(text) => Some(text@),
                    None => None,
                },
            }),
            StopEffect::PasteThenIdle(text) => effect@ == StopEffect::PasteThenIdle(text@),
            StopEffect::ClearToggle(binding) => effect@ == StopEffect::ClearToggle(binding@),
        },
{
}

/// A question of a release stands for itself.
pub proof fn law_questions_of_a_release(ask: StopAsk<String>, plan: PostProcessPlan<String>)
    ensures
        match ask {
            StopAsk::TakeIncrementalSession => ask@ is TakeIncrementalSession,
            StopAsk::Spawn => ask@ is Spawn,
            StopAsk::TakeDualStream => ask@ is TakeDualStream,
            StopAsk::StopCoordinator => ask@ is StopCoordinator,
            StopAsk::StopSession => ask@ is StopSession,
            StopAsk::StopSystemSession => ask@ is StopSystemSession,
            StopAsk::StopRecording => ask@ is StopRecording,
            StopAsk::Transcribe => ask@ is Transcribe,
            StopAsk::AccumulatedText => ask@ is AccumulatedText,
            StopAsk::ReadSettings => ask@ is ReadSettings,
            StopAsk::ConvertChinese { language, text } => ask@ == (StopAsk::ConvertChinese {
                language: language@,
                text: text@,
            }),
            StopAsk::Translate { api_key, model, text } => ask@ == (StopAsk::Translate {
                api_key: api_key@,
                model: model@,
                text: text@,
            }),
            StopAsk::PostProcess(p) => ask@ == StopAsk::PostProcess(p@),
            StopAsk::Finished => ask@ is Finished,
        },
        match plan {
            PostProcessPlan::Skip(reason) => plan@ == PostProcessPlan::<Seq<char>>::Skip(reason),
            PostProcessPlan::AppleIntelligence { prompt, token_limit } => plan@ == (
            PostProcessPlan::AppleIntelligence { prompt: prompt@, token_limit }),
            PostProcessPlan::Chat { provider_id, api_key, model, prompt } => plan@ == (
            PostProcessPlan::Chat {
                provider_id: provider_id@,
                api_key: api_key@,
                model: model@,
                prompt: prompt@,
            }),
        },
{
}

/// A question of the recording manager, and an outcome, stand for themselves.
pub proof fn law_questions_of_the_recording_manager<S>(
    ask: AudioAsk<Vec<S>>,
    outcome: AudioOutcome<Vec<S>>,
)
    ensures
        match ask {
            AudioAsk::IsSystemAudioAvailable => ask@ is IsSystemAudioAvailable,
            AudioAsk::StartCapture => ask@ is StartCapture,
            AudioAsk::ResolveVadPath => ask@ is ResolveVadPath,
            AudioAsk::CreateRecorder => ask@ is CreateRecorder,
            AudioAsk::OpenRecorder { system_audio } => ask@ == (AudioAsk::<Seq<S>>::OpenRecorder {
                system_audio,
            }),
            AudioAsk::CollectSamples => ask@ is CollectSamples,
            AudioAsk::StartRecorder => ask@ is StartRecorder,
            AudioAsk::ReadMuteSetting => ask@ is ReadMuteSetting,
            AudioAsk::EnableStreaming => ask@ is EnableStreaming,
            AudioAsk::Finished(o) => ask@ == AudioAsk::Finished(o@),
        },
        match outcome {
            AudioOutcome::Done => outcome@ is Done,
            AudioOutcome::Failed(error) => outcome@ == AudioOutcome::<Seq<S>>::Failed(error),
            AudioOutcome::RecordingStarted(b) => outcome@ == AudioOutcome::<
                Seq<S>,
            >::RecordingStarted(b),
            AudioOutcome::Samples(samples) => outcome@ == AudioOutcome::Samples(
                match samples {
                    Some(v) => Some(v@),
                    None => None,
                },
            ),
            AudioOutcome::StreamingEnabled(b) => outcome@ == AudioOutcome::<
                Seq<S>,
            >::StreamingEnabled(b),
        },
{
}

/// A question of a capture, a command and an optional text stand for themselves.
pub proof fn law_other_contents<P>(
    ask: CaptureAsk<P, Vec<AggregateEntry<String>>>,
    command: MuteCommand,
    text: Option<String>,
)
    ensures
        match ask {
            CaptureAsk::CreateTap => ask@ is CreateTap,
            CaptureAsk::ReadDefaultOutput => ask@ is ReadDefaultOutput,
            CaptureAsk::ReadDeviceUid(device) => ask@ == CaptureAsk::<
                P,
                Seq<AggregateEntry<Seq<char>>>,
            >::ReadDeviceUid(device),
            CaptureAsk::CreateAggregate(d) => ask@ == CaptureAsk::<
                P,
                Seq<AggregateEntry<Seq<char>>>,
            >::CreateAggregate(entries_of(d@)),
            CaptureAsk::ReadTapFormat(tap) => ask@ == CaptureAsk::<
                P,
                Seq<AggregateEntry<Seq<char>>>,
            >::ReadTapFormat(tap),
            CaptureAsk::CreateIoProc(device) => ask@ == CaptureAsk::<
                P,
                Seq<AggregateEntry<Seq<char>>>,
            >::CreateIoProc(device),
            CaptureAsk::StartDevice { device, io_proc } => ask@ == (CaptureAsk::<
                P,
                Seq<AggregateEntry<Seq<char>>>,
            >::StartDevice { device, io_proc }),
            CaptureAsk::Finished(r) => ask@ == CaptureAsk::<
                P,
                Seq<AggregateEntry<Seq<char>>>,
            >::Finished(r),
        },
        command@.program == command.program@,
        command@.args.len() == command.args@.len(),
        forall|i: int| 0 <= i < command.args@.len() ==> #[trigger] command@.args[i]
            == command.args@[i]@,
        optional_text(text) == match text {
            Some(t) => Some(t@),
            None => None,
        },
{
}

} // verus!
