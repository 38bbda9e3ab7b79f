use handy::managers::audio::{
    AudioAsk, AudioEffect, AudioError, AudioOutcome, AudioRecordingManager, AudioTurn,
    MicrophoneMode,
};
use handy::managers::microphone::{device_with_name, effective_microphone};
use handy::managers::mute::{mute_commands, next_mute_command};
use handy::samples::pad_short;
use handy::settings::{AppSettings, AudioSource, Platform};

fn settings(always_on: bool, source: AudioSource) -> AppSettings {
    AppSettings {
        selected_model: "m".to_string(),
        selected_language: "en".to_string(),
        mistral_api_key: String::new(),
        realtime_transcription_enabled: false,
        streaming_translation_enabled: false,
        always_on_microphone: always_on,
        mute_while_recording: true,
        audio_source: source,
        selected_microphone: Some("desk".to_string()),
        clamshell_microphone: Some("lid".to_string()),
        post_process_provider: None,
        post_process_models: vec![],
        post_process_api_keys: vec![],
        post_process_selected_prompt_id: None,
        post_process_prompts: vec![],
    }
}

fn outcome<S>(turn: &AudioTurn<S>) -> &AudioOutcome<Vec<S>> {
    match &turn.ask {
        AudioAsk::Finished(outcome) => outcome,
        _ => panic!("the operation has not ended"),
    }
}

/// A manager that records for `transcribe`, on demand.
fn recording(platform: Platform, source: AudioSource) -> AudioRecordingManager<i16> {
    let (mut m, turn) = AudioRecordingManager::new(&settings(false, source), platform, 0i16);
    assert!(matches!(outcome(&turn), AudioOutcome::Done));
    let mut turn = m.try_start_recording("transcribe");
    loop {
        match turn.ask {
            AudioAsk::Finished(AudioOutcome::RecordingStarted(started)) => {
                assert!(started);
                return m;
            }
            AudioAsk::Finished(_) | AudioAsk::CollectSamples => panic!("not a start"),
            _ => turn = m.answer(true),
        }
    }
}

/// Answers yes to everything that opening the stream on the microphone asks.
fn reopen(m: &mut AudioRecordingManager<i16>, first: AudioTurn<i16>) -> AudioTurn<i16> {
    let mut turn = first;
    while !matches!(turn.ask, AudioAsk::Finished(_)) {
        turn = m.answer(true);
    }
    turn
}

#[test]
fn on_demand_recording_opens_and_closes_the_stream() {
    let (mut m, _) =
        AudioRecordingManager::new(&settings(false, AudioSource::Microphone), Platform::Linux, 0i16);
    assert!(!m.is_recording());
    let turn = m.try_start_recording("a");
    assert!(matches!(turn.ask, AudioAsk::ResolveVadPath));
    let turn = m.answer(true);
    assert!(matches!(turn.ask, AudioAsk::CreateRecorder));
    let turn = m.answer(true);
    assert!(matches!(turn.ask, AudioAsk::OpenRecorder { system_audio: false }));
    let turn = m.answer(true);
    assert!(matches!(turn.ask, AudioAsk::StartRecorder));
    let turn = m.answer(true);
    assert!(matches!(outcome(&turn), AudioOutcome::RecordingStarted(true)));
    assert!(m.is_recording());
    assert_eq!(m.apply_mute(true), [AudioEffect::SetMute(true)]);

    let turn = m.stop_recording("a");
    assert!(matches!(turn.ask, AudioAsk::CollectSamples));
    let turn = m.take_samples(Some(vec![7; 16000]));
    assert_eq!(turn.effects, [AudioEffect::SetMute(false), AudioEffect::CloseRecorder]);
    match outcome(&turn) {
        AudioOutcome::Samples(Some(samples)) => assert_eq!(samples, &vec![7i16; 16000]),
        _ => panic!("expected samples"),
    }
    assert!(!m.is_recording());
}

#[test]
fn opening_fails_with_the_reason() {
    for (yeses, expected) in [
        (0, AudioError::VadPath),
        (1, AudioError::CreateRecorder),
        (2, AudioError::OpenRecorder),
    ] {
        let (mut m, turn) = AudioRecordingManager::new(
            &settings(true, AudioSource::Microphone),
            Platform::Linux,
            0i16,
        );
        assert!(matches!(turn.ask, AudioAsk::ResolveVadPath));
        for _ in 0..yeses {
            m.answer(true);
        }
        let turn = m.answer(false);
        match outcome(&turn) {
            AudioOutcome::Failed(error) => assert_eq!(*error, expected),
            _ => panic!("expected a failure"),
        }
    }
}

#[test]
fn a_recording_that_cannot_start_does_not() {
    let (mut m, _) =
        AudioRecordingManager::new(&settings(false, AudioSource::Microphone), Platform::Linux, 0i16);
    m.try_start_recording("a");
    let turn = m.answer(false);
    assert!(matches!(outcome(&turn), AudioOutcome::RecordingStarted(false)));
    assert!(!m.is_recording());
}

#[test]
fn always_on_needs_a_recorder() {
    let (mut m, turn) =
        AudioRecordingManager::new(&settings(true, AudioSource::Microphone), Platform::Linux, 0i16);
    let turn = reopen(&mut m, turn);
    assert!(matches!(outcome(&turn), AudioOutcome::Done));
    let turn = m.try_start_recording("a");
    assert!(matches!(turn.ask, AudioAsk::StartRecorder));
    m.answer(true);
    m.stop_recording("a");
    let turn = m.take_samples(None);
    assert!(turn.effects.is_empty());
    assert!(matches!(outcome(&turn), AudioOutcome::Samples(Some(s)) if s.is_empty()));
}

#[test]
fn only_one_recording_at_a_time() {
    let mut m = recording(Platform::Linux, AudioSource::Microphone);
    let turn = m.try_start_recording("other");
    assert!(matches!(outcome(&turn), AudioOutcome::RecordingStarted(false)));
    let turn = m.stop_recording("other");
    assert!(matches!(outcome(&turn), AudioOutcome::Samples(None)));
    assert!(m.is_recording());
}

#[test]
fn samples_survive_switches_in_order() {
    let mut m = recording(Platform::Linux, AudioSource::Microphone);
    let turn = m.update_selected_device();
    assert!(matches!(turn.ask, AudioAsk::CollectSamples));
    let turn = m.take_samples(Some(vec![1, 2]));
    assert_eq!(turn.effects, [AudioEffect::CloseRecorder]);
    let turn = reopen(&mut m, turn);
    assert!(matches!(outcome(&turn), AudioOutcome::Done));
    assert_eq!(turn.effects, [AudioEffect::SetMute(true)]);

    let turn = m.update_audio_source(AudioSource::Mixed);
    assert!(matches!(turn.ask, AudioAsk::CollectSamples));
    let turn = m.take_samples(Some(vec![3]));
    assert_eq!(turn.effects, [AudioEffect::SetMute(false), AudioEffect::CloseRecorder]);
    let turn = reopen(&mut m, turn);
    assert!(turn.effects.is_empty());

    m.stop_recording("transcribe");
    let turn = m.take_samples(Some(vec![4, 5]));
    match outcome(&turn) {
        AudioOutcome::Samples(Some(samples)) => {
            assert_eq!(samples.len(), 20000);
            assert_eq!(samples[..6], [1, 2, 3, 4, 5, 0]);
            assert!(samples[5..].iter().all(|&s| s == 0));
        }
        _ => panic!("expected samples"),
    }
}

#[test]
fn a_recording_that_does_not_resume_loses_its_samples() {
    let mut m = recording(Platform::Linux, AudioSource::Mixed);
    m.update_selected_device();
    m.take_samples(Some(vec![1]));
    m.answer(true);
    let turn = m.answer(true);
    assert!(matches!(turn.ask, AudioAsk::StartRecorder));
    let turn = m.answer(false);
    assert!(matches!(outcome(&turn), AudioOutcome::Failed(AudioError::ResumeRecording)));
    assert!(m.is_recording());
    m.stop_recording("transcribe");
    let turn = m.take_samples(Some(vec![9; 16000]));
    assert!(matches!(outcome(&turn), AudioOutcome::Samples(Some(s)) if s.len() == 16000));
}

#[test]
fn cancelling_discards_the_samples() {
    let mut m = recording(Platform::Linux, AudioSource::Microphone);
    m.apply_mute(true);
    let turn = m.cancel_recording();
    assert_eq!(
        turn.effects,
        [AudioEffect::DiscardSamples, AudioEffect::SetMute(false), AudioEffect::CloseRecorder]
    );
    assert!(!m.is_recording());
    let turn = m.stop_recording("transcribe");
    assert!(matches!(outcome(&turn), AudioOutcome::Samples(None)));
    let turn = m.cancel_recording();
    assert!(turn.effects.is_empty());
}

#[test]
fn system_audio_is_captured_unmuted() {
    let (mut m, _) = AudioRecordingManager::new(
        &settings(false, AudioSource::SystemAudio),
        Platform::MacApple,
        0i16,
    );
    let turn = m.try_start_recording("a");
    assert!(matches!(turn.ask, AudioAsk::IsSystemAudioAvailable));
    let turn = m.answer(true);
    assert_eq!(turn.effects, [AudioEffect::SetMute(false)]);
    assert!(matches!(turn.ask, AudioAsk::StartCapture));
    m.answer(true);
    m.answer(true);
    let turn = m.answer(true);
    assert!(matches!(turn.ask, AudioAsk::OpenRecorder { system_audio: true }));
    m.answer(true);
    m.answer(true);
    assert!(m.apply_mute(true).is_empty());
    m.stop_recording("a");
    let turn = m.take_samples(Some(vec![]));
    assert_eq!(turn.effects, [AudioEffect::CloseRecorder, AudioEffect::StopCapture]);
}

#[test]
fn system_audio_fails_with_the_reason() {
    let start = || {
        AudioRecordingManager::new(
            &settings(true, AudioSource::SystemAudio),
            Platform::MacIntel,
            0i16,
        )
    };
    let (mut m, _) = start();
    m.answer(true);
    let turn = m.answer(false);
    assert!(matches!(outcome(&turn), AudioOutcome::Failed(AudioError::StartSystemAudio)));
    let (mut m, _) = start();
    for _ in 0..4 {
        m.answer(true);
    }
    let turn = m.answer(false);
    assert!(matches!(outcome(&turn), AudioOutcome::Failed(AudioError::OpenSystemAudio)));
    let (mut m, _) = start();
    let turn = m.answer(false);
    assert!(matches!(turn.ask, AudioAsk::ResolveVadPath));
}

#[test]
fn system_audio_elsewhere_is_the_microphone() {
    let (_, turn) = AudioRecordingManager::new(
        &settings(true, AudioSource::SystemAudio),
        Platform::Windows,
        0i16,
    );
    assert!(matches!(turn.ask, AudioAsk::ResolveVadPath));
}

#[test]
fn modes_open_and_close_the_stream() {
    let (mut m, _) =
        AudioRecordingManager::new(&settings(false, AudioSource::Microphone), Platform::Linux, 0i16);
    let turn = m.update_mode(MicrophoneMode::AlwaysOn);
    let turn = reopen(&mut m, turn);
    assert!(matches!(outcome(&turn), AudioOutcome::Done));
    let turn = m.update_mode(MicrophoneMode::OnDemand);
    assert_eq!(turn.effects, [AudioEffect::CloseRecorder]);
    let turn = m.update_mode(MicrophoneMode::AlwaysOn);
    assert!(matches!(turn.ask, AudioAsk::ResolveVadPath));
    let turn = m.answer(false);
    assert!(matches!(outcome(&turn), AudioOutcome::Failed(AudioError::VadPath)));
    assert!(m.stop_microphone_stream().is_empty());
}

#[test]
fn streaming_is_reconnected_after_a_switch() {
    let mut m = recording(Platform::Linux, AudioSource::Mixed);
    let turn = m.enable_audio_streaming();
    assert!(matches!(turn.ask, AudioAsk::EnableStreaming));
    let turn = m.answer(true);
    assert!(matches!(outcome(&turn), AudioOutcome::StreamingEnabled(true)));
    m.update_selected_device();
    m.take_samples(Some(vec![]));
    m.answer(true);
    let turn = m.answer(true);
    assert_eq!(turn.effects, [AudioEffect::ReconnectStreaming]);
    m.answer(true);
    m.answer(false);
    assert_eq!(m.disable_audio_streaming(), [AudioEffect::DisableStreaming]);
}

#[test]
fn streaming_needs_a_recorder() {
    let (mut m, _) =
        AudioRecordingManager::new(&settings(false, AudioSource::Microphone), Platform::Linux, 0i16);
    let turn = m.enable_audio_streaming();
    assert!(matches!(outcome(&turn), AudioOutcome::StreamingEnabled(false)));
    assert!(m.disable_audio_streaming().is_empty());
    assert!(m.remove_mute().is_empty());
    assert_eq!(m.ensure_unmuted(), [AudioEffect::SetMute(false)]);
}

#[test]
fn audio_errors_have_words() {
    assert_eq!(AudioError::VadPath.message("x"), "Failed to resolve VAD path: x");
    assert_eq!(AudioError::CreateRecorder.message("x"), "x");
    assert_eq!(AudioError::OpenRecorder.message("x"), "Failed to open recorder: x");
    assert_eq!(AudioError::StartSystemAudio.message("x"), "Failed to start system audio: x");
    assert_eq!(
        AudioError::OpenSystemAudio.message("x"),
        "Failed to open recorder with system audio: x"
    );
    assert_eq!(AudioError::ResumeRecording.message("x"), "Failed to resume recording: x");
}

#[test]
fn clamshell_microphone_counts_when_the_lid_is_closed() {
    let s = settings(false, AudioSource::Microphone);
    assert_eq!(effective_microphone(&s, Some(true)), Some("lid".to_string()));
    assert_eq!(effective_microphone(&s, Some(false)), Some("desk".to_string()));
    assert_eq!(effective_microphone(&s, None), Some("desk".to_string()));
    let none = AppSettings { clamshell_microphone: None, selected_microphone: None, ..s };
    assert_eq!(effective_microphone(&none, Some(true)), None);
}

#[test]
fn the_first_device_of_a_name_is_taken() {
    let names = vec!["a".to_string(), "b".to_string(), "b".to_string()];
    assert_eq!(device_with_name(&names, "b"), Some(1));
    assert_eq!(device_with_name(&names, "c"), None);
    assert_eq!(device_with_name(&vec![], ""), None);
}

#[test]
fn muting_commands_by_platform() {
    let linux = mute_commands(Platform::Linux, true);
    let lines: Vec<String> =
        linux.iter().map(|c| format!("{} {}", c.program, c.args.join(" "))).collect();
    assert_eq!(
        lines,
        [
            "wpctl set-mute @DEFAULT_AUDIO_SINK@ 1",
            "pactl set-sink-mute @DEFAULT_SINK@ 1",
            "amixer set Master mute",
        ]
    );
    let linux = mute_commands(Platform::Linux, false);
    assert_eq!(linux[0].args[2], "0");
    assert_eq!(linux[1].args[2], "0");
    assert_eq!(linux[2].args[2], "unmute");
    let mac = mute_commands(Platform::MacApple, true);
    assert_eq!(mac.len(), 1);
    assert_eq!(mac[0].program, "osascript");
    assert_eq!(mac[0].args, ["-e", "set volume output muted true"]);
    assert_eq!(mute_commands(Platform::MacIntel, false)[0].args[1], "set volume output muted false");
    assert_eq!(mute_commands(Platform::Windows, true).len(), 0);
}

#[test]
fn muting_falls_back_until_a_command_succeeds() {
    let program = |tried: usize, succeeded: bool| {
        next_mute_command(Platform::Linux, true, tried, succeeded).map(|c| c.program)
    };
    assert_eq!(program(0, false), Some("wpctl".to_string()));
    assert_eq!(program(1, true), None);
    assert_eq!(program(1, false), Some("pactl".to_string()));
    assert_eq!(program(2, true), None);
    assert_eq!(program(2, false), Some("amixer".to_string()));
    assert_eq!(program(3, false), None);
    assert_eq!(program(3, true), None);
    let last = next_mute_command(Platform::Linux, false, 2, false).unwrap();
    assert_eq!(last.args, ["set", "Master", "unmute"]);
    assert!(next_mute_command(Platform::MacApple, true, 1, false).is_none());
    assert!(next_mute_command(Platform::Windows, true, 0, false).is_none());
}

#[test]
fn short_recordings_are_filled_up() {
    assert_eq!(pad_short(Vec::<i16>::new(), 0).len(), 0);
    let padded = pad_short(vec![5i16], 0);
    assert_eq!(padded.len(), 20000);
    assert_eq!(padded[..2], [5, 0]);
    assert_eq!(pad_short(vec![1i16; 15999], 0).len(), 20000);
    assert_eq!(pad_short(vec![1i16; 16000], 0).len(), 16000);
    assert_eq!(pad_short(padded, 0).len(), 20000);
}
