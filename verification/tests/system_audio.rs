use handy::audio_toolkit::system_audio::capture::{
    buffer_layout, build_aggregate_device, delivers_silence, reports_callback, AggregateValue,
    BufferLayout, CaptureAsk, CaptureEffect, CaptureError,
};
use handy::audio_toolkit::system_audio::permission::{
    keeps_listening, probe_turn, tcc_status, PermissionAsk, PermissionEffect, PermissionReply,
    ProbeEvent,
};
use handy::audio_toolkit::system_audio::version::macos_version;
use handy::audio_toolkit::system_audio::{
    check_permission, is_available, prompt_screen_recording_registration, request_permission,
    SystemAudioCapture, TccStatus,
};
use handy::settings::Platform;

fn effect_names(effects: &[CaptureEffect<u8>]) -> Vec<String> {
    effects
        .iter()
        .map(|e| match e {
            CaptureEffect::ResetCounters => "reset".to_string(),
            CaptureEffect::StopDevice { device, io_proc } => format!("stop {device} {io_proc}"),
            CaptureEffect::DestroyIoProc { device, io_proc } => {
                format!("destroy callback {device} {io_proc}")
            }
            CaptureEffect::DestroyAggregate(device) => format!("destroy device {device}"),
            CaptureEffect::DestroyTap(tap) => format!("destroy tap {tap}"),
        })
        .collect()
}

/// A capture whose tap was created and whose aggregate device is to be.
fn described() -> SystemAudioCapture<u8> {
    let mut c = SystemAudioCapture::new();
    c.start();
    c.tap_created(0, 4, "uuid".to_string());
    c.default_output(0, 9);
    c.device_uid(0, Some("speakers".to_string()));
    c
}

/// A capture that runs.
fn running() -> SystemAudioCapture<u8> {
    let mut c = described();
    c.aggregate_created(0, 5);
    c.tap_format(0, 44100);
    c.io_proc_created(0, 6);
    c.device_started(0);
    c
}

#[test]
fn versions_are_read() {
    assert_eq!(macos_version("14.2.1\n"), (14, 2, 1));
    assert_eq!(macos_version("15"), (15, 0, 0));
    assert_eq!(macos_version(""), (0, 0, 0));
    assert_eq!(macos_version("14.beta.3"), (14, 3, 0));
    assert_eq!(macos_version("4294967296.7"), (7, 0, 0));
}

#[test]
fn capturing_takes_a_recent_mac() {
    for (version, expected) in
        [("14.1.9", false), ("14.2", true), ("14.10", true), ("15.0", true), ("13.9", false), ("", false)]
    {
        assert_eq!(is_available(Platform::MacApple, version), expected);
        assert_eq!(is_available(Platform::MacIntel, version), expected);
        assert!(!is_available(Platform::Linux, version));
    }
    prompt_screen_recording_registration();
}

#[test]
fn codes_are_statuses() {
    assert_eq!(tcc_status(0), TccStatus::Authorized);
    assert_eq!(tcc_status(1), TccStatus::Denied);
    assert_eq!(tcc_status(2), TccStatus::Undetermined);
    assert_eq!(tcc_status(-1), TccStatus::Undetermined);
}

#[test]
fn a_check_decides_without_asking_the_user() {
    let (_, turn) = check_permission(Platform::MacApple, "13.0");
    assert_eq!(turn.ask, PermissionAsk::Decided(false));
    for (code, granted) in [(0, true), (1, false), (7, false)] {
        let (mut check, turn) = check_permission(Platform::MacApple, "14.4");
        assert_eq!(turn.ask, PermissionAsk::Preflight);
        let turn = check.step(PermissionReply::Preflight(Some(code)));
        assert_eq!(turn.ask, PermissionAsk::Decided(granted));
        assert!(turn.effects.is_empty());
    }
    let (mut check, _) = check_permission(Platform::MacApple, "14.4");
    let turn = check.step(PermissionReply::Preflight(None));
    assert_eq!(turn.ask, PermissionAsk::Probe);
    let turn = check.step(PermissionReply::Probe(true));
    assert_eq!(turn.ask, PermissionAsk::Decided(true));
}

#[test]
fn a_request_asks_only_where_needed() {
    let (mut check, _) = request_permission(Platform::MacApple, "14.4");
    let turn = check.step(PermissionReply::Preflight(Some(0)));
    assert_eq!(turn.ask, PermissionAsk::Decided(true));

    let (mut check, _) = request_permission(Platform::MacApple, "14.4");
    let turn = check.step(PermissionReply::Preflight(Some(1)));
    assert_eq!(turn.ask, PermissionAsk::Request);
    let turn = check.step(PermissionReply::Request(Some(true)));
    assert_eq!(turn.ask, PermissionAsk::Decided(true));
}

#[test]
fn a_refused_request_shows_the_settings() {
    for reply in [Some(false), None] {
        for (status, effects) in [
            (0, vec![PermissionEffect::DestroyTap(3), PermissionEffect::OpenSettings]),
            (-50, vec![PermissionEffect::OpenSettings]),
        ] {
            let (mut check, _) = request_permission(Platform::MacApple, "14.4");
            check.step(PermissionReply::Preflight(None));
            check.step(PermissionReply::Probe(false));
            let turn = check.step(PermissionReply::Request(reply));
            assert_eq!(turn.ask, PermissionAsk::CreateTap);
            let turn = check.step(PermissionReply::TapCreated(status, 3));
            assert_eq!(turn.effects, effects);
            assert_eq!(turn.ask, PermissionAsk::Decided(false));
        }
    }
}

#[test]
fn a_probe_listens_for_half_a_second() {
    assert!(keeps_listening(0));
    assert!(keeps_listening(499));
    assert!(!keeps_listening(500));
    assert_eq!(probe_turn(499, ProbeEvent::Samples(true)), Some(true));
    assert_eq!(probe_turn(499, ProbeEvent::Samples(false)), None);
    assert_eq!(probe_turn(499, ProbeEvent::Timeout), None);
    assert_eq!(probe_turn(499, ProbeEvent::Disconnected), Some(false));
    assert_eq!(probe_turn(500, ProbeEvent::Samples(true)), Some(false));
    assert_eq!(probe_turn(500, ProbeEvent::Timeout), Some(false));
}

#[test]
fn the_device_around_a_tap_is_described() {
    let entries = build_aggregate_device("tap", "out");
    let lines: Vec<String> = entries
        .iter()
        .map(|e| match &e.value {
            AggregateValue::Text(t) => format!("{}={t}", e.key),
            AggregateValue::Number(n) => format!("{}={n}", e.key),
            AggregateValue::Listed(uid) => format!("{}=[{uid}]", e.key),
        })
        .collect();
    assert_eq!(
        lines,
        [
            "uid=com.handy.system-audio-tap",
            "name=Handy System Audio",
            "private=1",
            "stacked=0",
            "tapautostart=1",
            "master=out",
            "clock=out",
            "sub=[out]",
            "taps=[tap]",
        ]
    );
}

#[test]
fn a_capture_starts_step_by_step() {
    let mut c: SystemAudioCapture<u8> = SystemAudioCapture::new();
    assert!(!c.is_running());
    let turn = c.start();
    assert_eq!(effect_names(&turn.effects), ["reset"]);
    assert!(matches!(turn.ask, CaptureAsk::CreateTap));
    let turn = c.tap_created(0, 4, "uuid".to_string());
    assert!(matches!(turn.ask, CaptureAsk::ReadDefaultOutput));
    let turn = c.default_output(0, 9);
    assert!(matches!(turn.ask, CaptureAsk::ReadDeviceUid(9)));
    let turn = c.device_uid(0, Some("speakers".to_string()));
    match &turn.ask {
        CaptureAsk::CreateAggregate(entries) => {
            assert!(matches!(&entries[5].value, AggregateValue::Text(t) if t == "speakers"));
            assert!(matches!(&entries[8].value, AggregateValue::Listed(t) if t == "uuid"));
        }
        _ => panic!("expected a description"),
    }
    let turn = c.aggregate_created(0, 5);
    assert!(matches!(turn.ask, CaptureAsk::ReadTapFormat(4)));
    let turn = c.tap_format(0, 44100);
    assert!(matches!(turn.ask, CaptureAsk::CreateIoProc(5)));
    let turn = c.io_proc_created(0, 6);
    assert!(matches!(turn.ask, CaptureAsk::StartDevice { device: 5, io_proc: 6 }));
    let turn = c.device_started(0);
    assert!(matches!(turn.ask, CaptureAsk::Finished(Ok(44100))));
    assert!(c.is_running());
}

#[test]
fn a_device_without_output_has_no_clock() {
    for (status, device) in [(1, 9), (0, 0)] {
        let mut c: SystemAudioCapture<u8> = SystemAudioCapture::new();
        c.start();
        c.tap_created(0, 4, "uuid".to_string());
        let turn = c.default_output(status, device);
        match &turn.ask {
            CaptureAsk::CreateAggregate(entries) => {
                assert!(matches!(&entries[5].value, AggregateValue::Text(t) if t.is_empty()));
            }
            _ => panic!("expected a description"),
        }
    }
    for (status, uid) in [(1, Some("x".to_string())), (0, None)] {
        let mut c: SystemAudioCapture<u8> = SystemAudioCapture::new();
        c.start();
        c.tap_created(0, 4, "uuid".to_string());
        c.default_output(0, 9);
        let turn = c.device_uid(status, uid);
        match &turn.ask {
            CaptureAsk::CreateAggregate(entries) => {
                assert!(matches!(&entries[7].value, AggregateValue::Listed(t) if t.is_empty()));
            }
            _ => panic!("expected a description"),
        }
    }
}

#[test]
fn a_tap_without_format_has_the_usual_rate() {
    let mut c = described();
    c.aggregate_created(0, 5);
    c.tap_format(-1, 44100);
    c.io_proc_created(0, 6);
    let turn = c.device_started(0);
    assert!(matches!(turn.ask, CaptureAsk::Finished(Ok(48000))));
}

#[test]
fn a_failed_start_leaves_nothing() {
    let mut c: SystemAudioCapture<u8> = SystemAudioCapture::new();
    c.start();
    let turn = c.tap_created(11, 4, String::new());
    assert!(turn.effects.is_empty());
    assert!(matches!(turn.ask, CaptureAsk::Finished(Err(CaptureError::CreateTap(11)))));

    let mut c = described();
    let turn = c.aggregate_created(12, 5);
    assert_eq!(effect_names(&turn.effects), ["destroy tap 4"]);
    assert!(matches!(turn.ask, CaptureAsk::Finished(Err(CaptureError::CreateAggregate(12)))));

    let mut c = described();
    c.aggregate_created(0, 5);
    c.tap_format(0, 48000);
    let turn = c.io_proc_created(13, 6);
    assert_eq!(effect_names(&turn.effects), ["destroy device 5", "destroy tap 4"]);
    assert!(matches!(turn.ask, CaptureAsk::Finished(Err(CaptureError::CreateIoProc(13)))));

    let mut c = described();
    c.aggregate_created(0, 5);
    c.tap_format(0, 48000);
    c.io_proc_created(0, 6);
    let turn = c.device_started(14);
    assert_eq!(
        effect_names(&turn.effects),
        ["destroy callback 5 6", "destroy device 5", "destroy tap 4"]
    );
    assert!(matches!(turn.ask, CaptureAsk::Finished(Err(CaptureError::StartDevice(14)))));
    assert!(!c.is_running());
    assert!(c.stop().is_empty());
}

#[test]
fn a_stop_undoes_a_start() {
    let mut c = running();
    let turn = c.start();
    assert!(matches!(turn.ask, CaptureAsk::Finished(Err(CaptureError::AlreadyRunning))));
    assert!(c.is_running());
    assert_eq!(
        effect_names(&c.stop()),
        ["stop 5 6", "destroy callback 5 6", "destroy device 5", "destroy tap 4"]
    );
    assert!(c.stop().is_empty());
    assert!(!c.is_running());
}

#[test]
fn capture_errors_have_words() {
    assert_eq!(
        CaptureError::AlreadyRunning.message(""),
        "System audio capture is already running"
    );
    assert_eq!(CaptureError::AlreadyRunning.status(), None);
    for (error, text) in [
        (CaptureError::CreateTap(-5), "AudioHardwareCreateProcessTap failed with status -5"),
        (
            CaptureError::CreateAggregate(-5),
            "AudioHardwareCreateAggregateDevice failed with status -5",
        ),
        (CaptureError::CreateIoProc(-5), "AudioDeviceCreateIOProcID failed with status -5"),
        (CaptureError::StartDevice(-5), "AudioDeviceStart failed with status -5"),
    ] {
        assert_eq!(error.status(), Some(-5));
        assert_eq!(error.message("-5"), text);
    }
}

#[test]
fn buffers_are_laid_out() {
    assert_eq!(buffer_layout(false, 64, 2), BufferLayout::Empty);
    assert_eq!(buffer_layout(true, 0, 2), BufferLayout::Empty);
    assert_eq!(buffer_layout(true, 67, 1), BufferLayout::Mono { samples: 16 });
    assert_eq!(buffer_layout(true, 64, 0), BufferLayout::Mono { samples: 16 });
    assert_eq!(buffer_layout(true, 68, 2), BufferLayout::Interleaved { channels: 2, frames: 8 });
    assert_eq!(buffer_layout(true, 8, 3), BufferLayout::Interleaved { channels: 3, frames: 0 });
}

#[test]
fn callbacks_are_reported_on_now_and_then() {
    assert!(reports_callback(1));
    assert!(!reports_callback(2));
    assert!(!reports_callback(500));
    assert!(reports_callback(501));
    assert!(!delivers_silence(50, 0));
    assert!(delivers_silence(51, 0));
    assert!(!delivers_silence(51, 1));
}
