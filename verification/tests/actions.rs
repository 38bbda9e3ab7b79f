use handy::actions::bindings::{action_for, Action};
use handy::actions::chinese::{
    chinese_conversion, convert_with, maybe_convert_chinese_variant, Conversion,
};
use handy::actions::post_process::{
    plan_post_process, post_processed, strip_invisible, PostProcessPlan, PostProcessReply,
    SkipReason,
};
use handy::actions::start::{
    StartAsk, StartEffect, StartReply, TranscribeStart, TranslatorSource,
};
use handy::actions::stop::{StopAsk, StopEffect, StopReply, TranscribeStop, TrayIconState};
use handy::settings::{
    AppSettings, AudioSource, EngineType, Platform, PostProcessPrompt, PostProcessProvider,
};

fn settings() -> AppSettings {
    AppSettings {
        selected_model: "parakeet".to_string(),
        selected_language: "en".to_string(),
        mistral_api_key: "key".to_string(),
        realtime_transcription_enabled: false,
        streaming_translation_enabled: false,
        always_on_microphone: false,
        mute_while_recording: false,
        audio_source: AudioSource::Microphone,
        selected_microphone: None,
        clamshell_microphone: None,
        post_process_provider: None,
        post_process_models: vec![],
        post_process_api_keys: vec![],
        post_process_selected_prompt_id: None,
        post_process_prompts: vec![],
    }
}

fn mistral() -> AppSettings {
    AppSettings { selected_model: "mistral-voxtral-realtime".to_string(), ..settings() }
}

fn with_provider(id: &str) -> AppSettings {
    AppSettings {
        post_process_provider: Some(PostProcessProvider { id: id.to_string() }),
        post_process_models: vec![(id.to_string(), " 512 ".to_string())],
        post_process_api_keys: vec![(id.to_string(), "secret".to_string())],
        post_process_selected_prompt_id: Some("p".to_string()),
        post_process_prompts: vec![
            PostProcessPrompt { id: "q".to_string(), prompt: "other".to_string() },
            PostProcessPrompt { id: "p".to_string(), prompt: "Fix: ${output}!${output}".to_string() },
            PostProcessPrompt { id: "p".to_string(), prompt: "second".to_string() },
        ],
        ..settings()
    }
}

fn stop_names(effects: &[StopEffect<String>]) -> Vec<&'static str> {
    effects
        .iter()
        .map(|e| match e {
            StopEffect::UnregisterCancelShortcut => "unregister",
            StopEffect::SetTray(TrayIconState::Idle) => "idle",
            StopEffect::SetTray(TrayIconState::Recording) => "recording",
            StopEffect::SetTray(TrayIconState::Transcribing) => "transcribing",
            StopEffect::ShowTranscribingOverlay => "show transcribing",
            StopEffect::ShowProcessingOverlay => "show processing",
            StopEffect::HideOverlay => "hide",
            StopEffect::RemoveMute => "unmute",
            StopEffect::PlayStopSound => "sound",
            StopEffect::DisableAudioStreaming => "disable streaming",
            StopEffect::StopIncrementalSession => "stop incremental",
            StopEffect::StopTranslator => "stop translator",
            StopEffect::StopSystemCapture => "stop capture",
            StopEffect::StopRecording => "stop recording",
            StopEffect::SaveHistory { .. } => "save",
            StopEffect::PasteThenIdle(_) => "paste",
            StopEffect::ClearToggle(_) => "clear",
        })
        .collect()
}

/// A flow that waits for the settings, with the given transcription.
fn batch_with_text(post_process: bool, text: &str) -> TranscribeStop {
    let (flow, _) = TranscribeStop::begin(post_process, "transcribe", Platform::Linux, &settings());
    let (flow, _) = flow.step(StopReply::Taken(false));
    let (flow, _) = flow.step(StopReply::Spawned);
    let (flow, _) = flow.step(StopReply::Recorded(true));
    flow.step(StopReply::Transcribed(Some(text.to_string()))).0
}

fn saved(effects: &[StopEffect<String>]) -> (String, Option<String>, Option<String>) {
    for e in effects {
        if let StopEffect::SaveHistory { transcription, post_processed, prompt } = e {
            return (transcription.clone(), post_processed.clone(), prompt.clone());
        }
    }
    panic!("nothing was saved")
}

fn pasted(effects: &[StopEffect<String>]) -> String {
    for e in effects {
        if let StopEffect::PasteThenIdle(text) = e {
            return text.clone();
        }
    }
    panic!("nothing was pasted")
}

#[test]
fn bindings_name_actions() {
    assert_eq!(action_for("transcribe"), Some(Action::Transcribe { post_process: false }));
    assert_eq!(
        action_for("transcribe_with_post_process"),
        Some(Action::Transcribe { post_process: true })
    );
    assert_eq!(action_for("cancel"), Some(Action::Cancel));
    assert_eq!(action_for("test"), Some(Action::Test));
    assert_eq!(action_for("Transcribe"), None);
    assert_eq!(action_for(""), None);
}

#[test]
fn languages_call_for_conversions() {
    assert_eq!(chinese_conversion("zh-Hans"), Some(Conversion::Tw2sp));
    assert_eq!(chinese_conversion("zh-Hant"), Some(Conversion::S2twp));
    assert_eq!(chinese_conversion("zh"), None);
    assert_eq!(chinese_conversion("en"), None);
}

#[test]
fn chinese_is_converted_both_ways() {
    let simplified = AppSettings { selected_language: "zh-Hans".to_string(), ..settings() };
    let traditional = AppSettings { selected_language: "zh-Hant".to_string(), ..settings() };
    assert_eq!(
        maybe_convert_chinese_variant(&simplified, "開放中文轉換"),
        Some("开放中文转换".to_string())
    );
    assert_eq!(
        maybe_convert_chinese_variant(&traditional, "开放中文转换"),
        Some("開放中文轉換".to_string())
    );
    assert_eq!(maybe_convert_chinese_variant(&settings(), "開放中文轉換"), None);
}

#[test]
fn a_converter_that_opened_converts() {
    let opened =
        ferrous_opencc::OpenCC::from_config(ferrous_opencc::config::BuiltinConfig::Tw2sp);
    assert_eq!(convert_with(opened, "漢語"), Some("汉语".to_string()));
    // A converter for something else converts too, in its own way.
    let opened = ferrous_opencc::OpenCC::from_config(ferrous_opencc::config::BuiltinConfig::S2t);
    assert_eq!(convert_with(opened, "汉语"), Some("漢語".to_string()));
}

#[test]
fn post_processing_is_skipped_for_a_reason() {
    let linux = Platform::Linux;
    let plan = plan_post_process(&settings(), "text", linux);
    assert!(matches!(plan, PostProcessPlan::Skip(SkipReason::NoProvider)));

    let no_model = AppSettings {
        post_process_models: vec![("x".to_string(), " \t".to_string())],
        ..with_provider("x")
    };
    let plan = plan_post_process(&no_model, "text", linux);
    assert!(matches!(plan, PostProcessPlan::Skip(SkipReason::NoModel)));

    let none_selected = AppSettings { post_process_selected_prompt_id: None, ..with_provider("x") };
    let plan = plan_post_process(&none_selected, "text", linux);
    assert!(matches!(plan, PostProcessPlan::Skip(SkipReason::NoPromptSelected)));

    let unknown = AppSettings {
        post_process_selected_prompt_id: Some("z".to_string()),
        ..with_provider("x")
    };
    let plan = plan_post_process(&unknown, "text", linux);
    assert!(matches!(plan, PostProcessPlan::Skip(SkipReason::PromptNotFound)));

    let empty = AppSettings {
        post_process_prompts: vec![PostProcessPrompt {
            id: "p".to_string(),
            prompt: "\u{3000}\n".to_string(),
        }],
        ..with_provider("x")
    };
    let plan = plan_post_process(&empty, "text", linux);
    assert!(matches!(plan, PostProcessPlan::Skip(SkipReason::EmptyPrompt)));

    let apple = with_provider("apple_intelligence");
    for platform in [Platform::Linux, Platform::Windows, Platform::MacIntel, Platform::Other] {
        let plan = plan_post_process(&apple, "text", platform);
        assert!(matches!(plan, PostProcessPlan::Skip(SkipReason::UnsupportedPlatform)));
    }
}

#[test]
fn post_processing_fills_the_prompt_in() {
    match plan_post_process(&with_provider("openai"), "a ${output}", Platform::Linux) {
        PostProcessPlan::Chat { provider_id, api_key, model, prompt } => {
            assert_eq!(provider_id, "openai");
            assert_eq!(api_key, "secret");
            assert_eq!(model, " 512 ");
            assert_eq!(prompt, "Fix: a ${output}!a ${output}");
        }
        _ => panic!("expected a chat"),
    }
    match plan_post_process(&with_provider("apple_intelligence"), "b", Platform::MacApple) {
        PostProcessPlan::AppleIntelligence { prompt, token_limit } => {
            assert_eq!(prompt, "Fix: b!b");
            assert_eq!(token_limit, 512);
        }
        _ => panic!("expected Apple Intelligence"),
    }
    let no_key = AppSettings { post_process_api_keys: vec![], ..with_provider("openai") };
    match plan_post_process(&no_key, "b", Platform::Linux) {
        PostProcessPlan::Chat { api_key, .. } => assert_eq!(api_key, ""),
        _ => panic!("expected a chat"),
    }
}

#[test]
fn token_limit_is_a_number_or_zero() {
    for (model, expected) in
        [("7", 7), ("-12", -12), ("+3", 3), ("big", 0), ("2147483648", 0), ("-2147483648", i32::MIN)]
    {
        let s = AppSettings {
            post_process_models: vec![("apple_intelligence".to_string(), model.to_string())],
            ..with_provider("apple_intelligence")
        };
        match plan_post_process(&s, "b", Platform::MacApple) {
            PostProcessPlan::AppleIntelligence { token_limit, .. } => {
                assert_eq!(token_limit, expected)
            }
            _ => panic!("expected Apple Intelligence"),
        }
    }
}

#[test]
fn replies_become_texts() {
    assert_eq!(strip_invisible("a\u{200B}b\u{200C}\u{200D}c\u{FEFF}"), "abc");
    assert_eq!(
        post_processed(PostProcessReply::Chat("\u{200B} x ".to_string())),
        Some(" x ".to_string())
    );
    assert_eq!(post_processed(PostProcessReply::Chat("\u{FEFF}".to_string())), Some(String::new()));
    assert_eq!(post_processed(PostProcessReply::Apple(" \n".to_string())), None);
    assert_eq!(
        post_processed(PostProcessReply::Apple(" y\u{200B}".to_string())),
        Some(" y\u{200B}".to_string())
    );
    assert_eq!(post_processed(PostProcessReply::Nothing), None);
}

#[test]
fn start_in_batch_mode_records_and_rests() {
    let (mut flow, turn) = TranscribeStart::begin("transcribe", Platform::Linux, settings());
    assert!(matches!(turn.effects[0], StartEffect::InitiateModelLoad));
    assert!(matches!(turn.effects[1], StartEffect::SetTray(TrayIconState::Recording)));
    assert!(matches!(turn.effects[2], StartEffect::ShowRecordingOverlay));
    assert_eq!(turn.effects.len(), 3);
    assert!(matches!(&turn.ask, StartAsk::TryStartRecording { binding } if binding == "transcribe"));
    let turn = flow.step(StartReply::RecordingStarted(true));
    assert!(matches!(turn.effects[0], StartEffect::FeedbackThenMute { delay_ms: 100 }));
    assert!(matches!(turn.effects[1], StartEffect::RegisterCancelShortcut));
    assert_eq!(turn.effects.len(), 2);
    assert!(matches!(turn.ask, StartAsk::Finished));
}

#[test]
fn start_without_recording_ends_at_once() {
    let always_on = AppSettings { always_on_microphone: true, ..mistral() };
    let (mut flow, turn) = TranscribeStart::begin("transcribe", Platform::MacApple, always_on);
    assert!(matches!(
        turn.effects[turn.effects.len() - 1],
        StartEffect::FeedbackThenMute { delay_ms: 0 }
    ));
    let turn = flow.step(StartReply::RecordingStarted(false));
    assert_eq!(turn.effects.len(), 0);
    assert!(matches!(turn.ask, StartAsk::Finished));
}

#[test]
fn start_of_one_stream_starts_a_session_and_a_translator() {
    let s = AppSettings { streaming_translation_enabled: true, ..mistral() };
    let (mut flow, turn) = TranscribeStart::begin("transcribe", Platform::Windows, s);
    assert!(matches!(
        turn.effects[2],
        StartEffect::ShowStreamingOverlay { translation_panel: true }
    ));
    let turn = flow.step(StartReply::RecordingStarted(true));
    assert!(matches!(turn.ask, StartAsk::EnableAudioStreaming));
    let turn = flow.step(StartReply::StreamingEnabled(true));
    assert!(matches!(
        &turn.effects[0],
        StartEffect::StartSession { api_key, silent: false } if api_key == "key"
    ));
    assert!(matches!(
        &turn.effects[1],
        StartEffect::StartTranslator { api_key, source: TranslatorSource::Session } if api_key == "key"
    ));
    assert!(matches!(turn.effects[2], StartEffect::StoreSession));
    assert!(matches!(turn.ask, StartAsk::Finished));
}

#[test]
fn start_of_two_streams_needs_a_mac_and_falls_back() {
    let mixed = || AppSettings { audio_source: AudioSource::Mixed, ..mistral() };
    let (mut flow, _) = TranscribeStart::begin("transcribe", Platform::Linux, mixed());
    let turn = flow.step(StartReply::RecordingStarted(true));
    assert!(matches!(turn.ask, StartAsk::Finished));

    let (mut flow, _) = TranscribeStart::begin("transcribe", Platform::MacIntel, mixed());
    let turn = flow.step(StartReply::RecordingStarted(true));
    assert!(matches!(turn.effects[2], StartEffect::EnsureUnmuted));
    let turn = flow.step(StartReply::StreamingEnabled(true));
    assert!(matches!(turn.ask, StartAsk::StartSystemCapture));
    let turn = flow.step(StartReply::CaptureStarted(false));
    assert!(matches!(turn.effects[0], StartEffect::StartSession { silent: false, .. }));
    assert!(matches!(turn.effects[1], StartEffect::StoreSession));
    assert_eq!(turn.effects.len(), 2);

    let (mut flow, _) = TranscribeStart::begin("transcribe", Platform::MacIntel, mixed());
    flow.step(StartReply::RecordingStarted(true));
    flow.step(StartReply::StreamingEnabled(true));
    let turn = flow.step(StartReply::CaptureStarted(true));
    assert!(matches!(
        turn.effects[0],
        StartEffect::StartSystemBridge { sample_rate: 16000, frame_ms: 30 }
    ));
    assert!(matches!(turn.effects[1], StartEffect::StartSession { silent: true, .. }));
    assert!(matches!(turn.effects[2], StartEffect::StartSystemSession { .. }));
    assert!(matches!(turn.effects[3], StartEffect::StartCoordinator));
    assert!(matches!(turn.effects[4], StartEffect::StoreSession));
    assert!(matches!(turn.effects[5], StartEffect::StoreDualStream));
    assert_eq!(turn.effects.len(), 6);
}

#[test]
fn start_of_a_fast_model_is_incremental() {
    let realtime = || AppSettings { realtime_transcription_enabled: true, ..settings() };
    for (engine, incremental) in [
        (Some(EngineType::Parakeet), true),
        (Some(EngineType::Moonshine), true),
        (Some(EngineType::Other), false),
        (None, false),
    ] {
        let (mut flow, turn) = TranscribeStart::begin("transcribe", Platform::Linux, realtime());
        assert!(matches!(&turn.ask, StartAsk::ModelEngine { model } if model == "parakeet"));
        let turn = flow.step(StartReply::Engine(engine));
        assert_eq!(
            matches!(turn.effects[1], StartEffect::ShowStreamingOverlay { translation_panel: false }),
            incremental
        );
        let turn = flow.step(StartReply::RecordingStarted(true));
        assert_eq!(matches!(turn.ask, StartAsk::EnableAudioStreaming), incremental);
        if incremental {
            let turn = flow.step(StartReply::StreamingEnabled(true));
            assert!(matches!(turn.ask, StartAsk::ResolveVadPath));
            let turn = flow.step(StartReply::VadPathResolved(false));
            assert!(matches!(turn.effects[0], StartEffect::DisableAudioStreaming));
            assert!(matches!(turn.ask, StartAsk::Finished));
        }
    }
}

#[test]
fn stop_prepares_by_the_way_of_transcribing() {
    let (flow, turn) = TranscribeStop::begin(false, "transcribe", Platform::Linux, &settings());
    assert_eq!(stop_names(&turn.effects), ["unregister"]);
    assert!(matches!(turn.ask, StopAsk::TakeIncrementalSession));
    let (_, turn) = flow.step(StopReply::Taken(false));
    assert_eq!(
        stop_names(&turn.effects),
        ["transcribing", "show transcribing", "unmute", "sound"]
    );
    let (flow, _) = TranscribeStop::begin(false, "transcribe", Platform::Linux, &mistral());
    let (_, turn) = flow.step(StopReply::Taken(false));
    assert_eq!(stop_names(&turn.effects), ["unmute", "sound"]);
    assert!(matches!(turn.ask, StopAsk::Spawn));
}

#[test]
fn stop_without_samples_or_text_ends_idle() {
    let begin = || {
        let (flow, _) =
            TranscribeStop::begin(false, "transcribe", Platform::Linux, &settings());
        let (flow, _) = flow.step(StopReply::Taken(false));
        flow.step(StopReply::Spawned).0
    };
    let (_, turn) = begin().step(StopReply::Recorded(false));
    assert_eq!(stop_names(&turn.effects), ["hide", "idle", "clear"]);
    assert!(matches!(turn.ask, StopAsk::Finished));
    for transcribed in [None, Some(String::new())] {
        let (flow, _) = begin().step(StopReply::Recorded(true));
        let (_, turn) = flow.step(StopReply::Transcribed(transcribed));
        assert_eq!(stop_names(&turn.effects), ["hide", "idle", "clear"]);
        assert!(matches!(&turn.effects[2], StopEffect::ClearToggle(b) if b == "transcribe"));
    }
}

#[test]
fn stop_pastes_and_saves_once() {
    let (flow, turn) = batch_with_text(false, "hello").step(StopReply::Settings(settings()));
    assert!(matches!(
        &turn.ask,
        StopAsk::ConvertChinese { language, text } if language == "en" && text == "hello"
    ));
    let (_, turn) = flow.convert();
    assert_eq!(stop_names(&turn.effects), ["save", "paste", "clear"]);
    assert_eq!(saved(&turn.effects), ("hello".to_string(), None, None));
    assert_eq!(pasted(&turn.effects), "hello");
    assert!(matches!(turn.ask, StopAsk::Finished));
}

#[test]
fn stop_converts_chinese_before_pasting() {
    let s = AppSettings { selected_language: "zh-Hans".to_string(), ..settings() };
    let (flow, _) = batch_with_text(false, "開放").step(StopReply::Settings(s));
    let (_, turn) = flow.convert();
    assert_eq!(saved(&turn.effects), ("開放".to_string(), Some("开放".to_string()), None));
    assert_eq!(pasted(&turn.effects), "开放");
}

#[test]
fn stop_falls_back_when_conversion_fails() {
    let s = AppSettings { selected_language: "zh-Hans".to_string(), ..settings() };
    let (flow, _) = batch_with_text(false, "開放").step(StopReply::Settings(s));
    let (_, turn) = flow.step(StopReply::Converted(None));
    assert_eq!(pasted(&turn.effects), "開放");
}

#[test]
fn stop_post_processes_on_request() {
    let (flow, _) =
        batch_with_text(true, "hello").step(StopReply::Settings(with_provider("openai")));
    let (flow, turn) = flow.step(StopReply::Converted(None));
    assert_eq!(stop_names(&turn.effects), ["show processing"]);
    assert!(matches!(
        &turn.ask,
        StopAsk::PostProcess(PostProcessPlan::Chat { prompt, .. }) if prompt == "Fix: hello!hello"
    ));
    let reply = PostProcessReply::Chat("Hello.\u{200B}".to_string());
    let (_, turn) = flow.step(StopReply::PostProcessed(reply));
    assert_eq!(
        saved(&turn.effects),
        (
            "hello".to_string(),
            Some("Hello.".to_string()),
            Some("Fix: ${output}!${output}".to_string())
        )
    );
    assert_eq!(pasted(&turn.effects), "Hello.");
}

#[test]
fn stop_falls_back_when_post_processing_yields_nothing() {
    let (flow, _) =
        batch_with_text(true, "hello").step(StopReply::Settings(with_provider("openai")));
    let (flow, _) = flow.step(StopReply::Converted(Some("hallo".to_string())));
    let (_, turn) = flow.step(StopReply::PostProcessed(PostProcessReply::Nothing));
    assert_eq!(pasted(&turn.effects), "hallo");
    assert_eq!(saved(&turn.effects), ("hello".to_string(), Some("hallo".to_string()), None));

    let (flow, _) = batch_with_text(true, "hello").step(StopReply::Settings(settings()));
    let (_, turn) = flow.step(StopReply::Converted(None));
    assert_eq!(stop_names(&turn.effects), ["show processing", "save", "paste", "clear"]);
    assert_eq!(pasted(&turn.effects), "hello");
}

#[test]
fn stop_of_an_incremental_session_prefers_the_final_text() {
    let begin = || {
        let (flow, _) =
            TranscribeStop::begin(false, "transcribe", Platform::Linux, &mistral());
        let (flow, _) = flow.step(StopReply::Taken(true));
        let (flow, turn) = flow.step(StopReply::Spawned);
        assert_eq!(
            stop_names(&turn.effects),
            ["disable streaming", "stop incremental", "transcribing", "show transcribing"]
        );
        flow.step(StopReply::Recorded(true)).0
    };
    let (_, turn) = begin().step(StopReply::Transcribed(Some("all".to_string())));
    assert!(matches!(turn.ask, StopAsk::ReadSettings));
    for transcribed in [None, Some(String::new())] {
        let (flow, turn) = begin().step(StopReply::Transcribed(transcribed));
        assert!(matches!(turn.ask, StopAsk::AccumulatedText));
        let (_, turn) = flow.step(StopReply::Text("preview".to_string()));
        assert!(matches!(turn.ask, StopAsk::ReadSettings));
    }
    let (flow, _) = begin().step(StopReply::Transcribed(None));
    let (_, turn) = flow.step(StopReply::Text(String::new()));
    assert_eq!(stop_names(&turn.effects), ["hide", "idle", "clear"]);
}

#[test]
fn stop_of_one_stream_translates() {
    let s = || AppSettings { streaming_translation_enabled: true, ..mistral() };
    let begin = |text: &str| {
        let (flow, _) = TranscribeStop::begin(false, "transcribe", Platform::Linux, &s());
        let (flow, _) = flow.step(StopReply::Taken(false));
        let (flow, turn) = flow.step(StopReply::Spawned);
        assert!(matches!(turn.ask, StopAsk::TakeDualStream));
        let (flow, turn) = flow.step(StopReply::Taken(true));
        assert_eq!(stop_names(&turn.effects), ["disable streaming", "stop translator"]);
        assert!(matches!(turn.ask, StopAsk::StopSession));
        let (flow, turn) = flow.step(StopReply::Text(text.to_string()));
        assert_eq!(stop_names(&turn.effects), ["stop recording"]);
        flow.step(StopReply::Settings(s()))
    };
    let (flow, turn) = begin("Guten Morgen zusammen heute");
    assert!(matches!(
        &turn.ask,
        StopAsk::Translate { api_key, model, text }
            if api_key == "key" && model == "mistral-medium-latest"
                && text == "Guten Morgen zusammen heute"
    ));
    let (_, turn) = flow.step(StopReply::Translated(Some("Good morning".to_string())));
    assert_eq!(
        saved(&turn.effects),
        (
            "Guten Morgen zusammen heute\n\n---\n\nGood morning".to_string(),
            Some("Good morning".to_string()),
            None
        )
    );
    assert_eq!(pasted(&turn.effects), "Good morning");

    let (flow, _) = begin("Guten Morgen zusammen heute");
    let (_, turn) = flow.step(StopReply::Translated(None));
    assert_eq!(pasted(&turn.effects), "Guten Morgen zusammen heute");
    assert_eq!(
        saved(&turn.effects),
        ("Guten Morgen zusammen heute".to_string(), None, None)
    );

    let (_, turn) = begin("this is what we want");
    assert_eq!(pasted(&turn.effects), "this is what we want");
}

#[test]
fn stop_of_two_streams_merges_them() {
    let (flow, _) = TranscribeStop::begin(false, "transcribe", Platform::MacApple, &mistral());
    let (flow, _) = flow.step(StopReply::Taken(false));
    let (flow, _) = flow.step(StopReply::Spawned);
    let (flow, turn) = flow.step(StopReply::Taken(true));
    assert_eq!(
        stop_names(&turn.effects),
        ["disable streaming", "stop translator", "stop capture"]
    );
    assert!(matches!(turn.ask, StopAsk::StopCoordinator));
    let segments = vec![("Hi".to_string(), true), ("Hey".to_string(), false)];
    let (flow, turn) = flow.step(StopReply::Segments(segments));
    assert!(matches!(turn.ask, StopAsk::StopSession));
    let (flow, turn) = flow.step(StopReply::Text("Hi".to_string()));
    assert!(matches!(turn.ask, StopAsk::StopSystemSession));
    let (flow, turn) = flow.step(StopReply::Text("Hey".to_string()));
    assert_eq!(stop_names(&turn.effects), ["stop recording"]);
    let (_, turn) = flow.step(StopReply::Settings(mistral()));
    assert_eq!(pasted(&turn.effects), "[🎤 Mic] Hi\n[🔊 System Audio] Hey");
}
