//! What starting and stopping a capture, and asking for the permission to, come
//! to.

use vstd::prelude::*;

use crate::audio_toolkit::system_audio::capture::{
    aggregate_made, capture_begun, capture_error_prefix, default_output_read, describing,
    description, device_begun, entries_of, io_proc_made, layout, read_uid, stopping_effects,
    tap_format_read, tap_made, AggregateEntry, AggregateValue, BufferLayout, CaptureAsk,
    CaptureEffect, CaptureError, CaptureNext, CaptureStage,
};
use crate::audio_toolkit::system_audio::permission::{
    part_verdict, permission_answers, permission_begun, permission_turn, probe_verdict, status_of,
    PermissionAsk, PermissionEffect, PermissionNext, PermissionReply, PermissionStage, ProbeEvent,
};
use crate::audio_toolkit::system_audio::version::available;
use crate::settings::Platform;

verus! {

/// A turn without an effect.
pub open spec fn onward<P>(
    stage: CaptureStage<P, Seq<char>>,
    ask: CaptureAsk<P, Seq<AggregateEntry<Seq<char>>>>,
) -> CaptureNext<P> {
    CaptureNext { stage, effects: Seq::empty(), ask }
}

/// A capture that runs is not started again. Any other starts with a tap; the tap
/// gets a device around it, on the default output, then the device a callback,
/// and at last the device is started. Each step uses what the ones before it have
/// made, and the capture runs at the rate of its tap.
pub proof fn law_how_a_capture_starts<P>(
    stage: CaptureStage<P, Seq<char>>,
    tap: u32,
    uuid: Seq<char>,
    output: u32,
    uid: Seq<char>,
    device: u32,
    rate: u32,
    io_proc: P,
)
    ensures
        capture_begun(stage) == if stage is Running {
            onward(stage, CaptureAsk::Finished(Err(CaptureError::AlreadyRunning)))
        } else {
            CaptureNext {
                stage: CaptureStage::CreatingTap,
                effects: seq![CaptureEffect::ResetCounters],
                ask: CaptureAsk::CreateTap,
            }
        },
        tap_made::<P>(0, tap, uuid) == onward::<P>(
            CaptureStage::ReadingDefaultOutput { tap, uuid },
            CaptureAsk::ReadDefaultOutput,
        ),
        output != 0 ==> default_output_read::<P>(tap, uuid, 0, output) == onward::<P>(
            CaptureStage::ReadingDeviceUid { tap, uuid },
            CaptureAsk::ReadDeviceUid(output),
        ),
        describing::<P>(tap, uuid, read_uid(0, Some(uid))) == onward::<P>(
            CaptureStage::CreatingAggregate { tap },
            CaptureAsk::CreateAggregate(description(uuid, uid)),
        ),
        aggregate_made::<P>(tap, 0, device) == onward::<P>(
            CaptureStage::ReadingTapFormat { tap, device },
            CaptureAsk::ReadTapFormat(tap),
        ),
        tap_format_read::<P>(tap, device, 0, rate) == onward::<P>(
            CaptureStage::CreatingIoProc { tap, device, rate },
            CaptureAsk::CreateIoProc(device),
        ),
        io_proc_made(tap, device, rate, 0, io_proc) == onward(
            CaptureStage::StartingDevice { tap, device, rate, io_proc },
            CaptureAsk::StartDevice { device, io_proc },
        ),
        device_begun(tap, device, rate, io_proc, 0) == onward(
            CaptureStage::Running { tap, device, io_proc },
            CaptureAsk::Finished(Ok(rate)),
        ),
{
}

/// What a capture does where the system refuses. Without an output device, or
/// without its uid, the device is made with an empty one; a tap that does not
/// tell its rate is taken to have 48 kHz. Everything else ends the start with the
/// system's status, and takes down what was made, last first.
pub proof fn law_how_a_capture_fails<P>(
    tap: u32,
    uuid: Seq<char>,
    output: u32,
    uid: Option<Seq<char>>,
    device: u32,
    rate: u32,
    io_proc: P,
    status: i32,
)
    requires
        status != 0,
    ensures
        ({
            let over = |effects: Seq<CaptureEffect<P>>, error: CaptureError|
                CaptureNext {
                    stage: CaptureStage::<P, Seq<char>>::Stopped,
                    effects,
                    ask: CaptureAsk::<P, Seq<AggregateEntry<Seq<char>>>>::Finished(Err(error)),
                };
            let unnamed = onward::<P>(
                CaptureStage::CreatingAggregate { tap },
                CaptureAsk::CreateAggregate(description(uuid, Seq::empty())),
            );
            &&& tap_made::<P>(status, tap, uuid) == over(
                Seq::empty(),
                CaptureError::CreateTap(status),
            )
            &&& default_output_read::<P>(tap, uuid, status, output) == unnamed
            &&& default_output_read::<P>(tap, uuid, 0, 0) == unnamed
            &&& describing::<P>(tap, uuid, read_uid(status, uid)) == unnamed
            &&& describing::<P>(tap, uuid, read_uid(0, None)) == unnamed
            &&& aggregate_made::<P>(tap, status, device) == over(
                seq![CaptureEffect::DestroyTap(tap)],
                CaptureError::CreateAggregate(status),
            )
            &&& tap_format_read::<P>(tap, device, status, rate) == onward::<P>(
                CaptureStage::CreatingIoProc { tap, device, rate: 48000 },
                CaptureAsk::CreateIoProc(device),
            )
            &&& io_proc_made(tap, device, rate, status, io_proc) == over(
                seq![CaptureEffect::DestroyAggregate(device), CaptureEffect::DestroyTap(tap)],
                CaptureError::CreateIoProc(status),
            )
            &&& device_begun(tap, device, rate, io_proc, status) == over(
                seq![
                    CaptureEffect::DestroyIoProc { device, io_proc },
                    CaptureEffect::DestroyAggregate(device),
                    CaptureEffect::DestroyTap(tap),
                ],
                CaptureError::StartDevice(status),
            )
        }),
{
}

/// A capture that runs is stopped from the top down, and any other has nothing to
/// stop.
pub proof fn law_how_a_capture_stops<P>(
    stage: CaptureStage<P, Seq<char>>,
    tap: u32,
    device: u32,
    io_proc: P,
)
    ensures
        stage == (CaptureStage::<P, Seq<char>>::Running { tap, device, io_proc })
            ==> stopping_effects(stage) == seq![
            CaptureEffect::StopDevice { device, io_proc },
            CaptureEffect::DestroyIoProc { device, io_proc },
            CaptureEffect::DestroyAggregate(device),
            CaptureEffect::DestroyTap(tap),
        ],
        !(stage is Running) ==> stopping_effects(stage) == Seq::<CaptureEffect<P>>::empty(),
{
}

/// What is said of a device.
pub open spec fn says(
    entries: Seq<AggregateEntry<Seq<char>>>,
    key: Seq<char>,
    value: AggregateValue<Seq<char>>,
) -> bool {
    exists|i: int|
        0 <= i < entries.len() && (#[trigger] entries[i]).key == key && entries[i].value == value
}

/// The device is the application's own and nobody else's, its parts are not
/// stacked, it starts with the tap, the output device leads it and gives it its
/// clock, and it consists of that and of the tap; nothing else is said of it.
pub proof fn law_what_the_device_is_like(tap_uuid: Seq<char>, output_uid: Seq<char>)
    ensures
        ({
            let d = description(tap_uuid, output_uid);
            &&& d.len() == 9
            &&& says(d, "uid"@, AggregateValue::Text("com.handy.system-audio-tap"@))
            &&& says(d, "name"@, AggregateValue::Text("Handy System Audio"@))
            &&& says(d, "private"@, AggregateValue::Number(1))
            &&& says(d, "stacked"@, AggregateValue::Number(0))
            &&& says(d, "tapautostart"@, AggregateValue::Number(1))
            &&& says(d, "master"@, AggregateValue::Text(output_uid))
            &&& says(d, "clock"@, AggregateValue::Text(output_uid))
            &&& says(d, "sub"@, AggregateValue::Listed(output_uid))
            &&& says(d, "taps"@, AggregateValue::Listed(tap_uuid))
        }),
{
    let d = description(tap_uuid, output_uid);
    assert(d[0].key == "uid"@);
    assert(d[1].key == "name"@);
    assert(d[2].key == "private"@);
    assert(d[3].key == "stacked"@);
    assert(d[4].key == "tapautostart"@);
    assert(d[5].key == "master"@);
    assert(d[6].key == "clock"@);
    assert(d[7].key == "sub"@);
    assert(d[8].key == "taps"@);
}

/// What errors of a capture say before the status.
pub proof fn law_how_capture_errors_begin(status: i32)
    ensures
        capture_error_prefix(CaptureError::AlreadyRunning)
            == "System audio capture is already running"@,
        capture_error_prefix(CaptureError::CreateTap(status))
            == "AudioHardwareCreateProcessTap failed with status "@,
        capture_error_prefix(CaptureError::CreateAggregate(status))
            == "AudioHardwareCreateAggregateDevice failed with status "@,
        capture_error_prefix(CaptureError::CreateIoProc(status))
            == "AudioDeviceCreateIOProcID failed with status "@,
        capture_error_prefix(CaptureError::StartDevice(status))
            == "AudioDeviceStart failed with status "@,
{
}

/// A buffer without data is empty. One of several channels holds them frame by
/// frame, and any other is of a single channel.
pub proof fn law_how_buffers_are_laid_out(has_data: bool, bytes: u32, channels: u32)
    ensures
        layout(has_data, bytes, channels) is Empty <==> !has_data || bytes == 0,
        has_data && bytes > 0 && channels <= 1 ==> layout(has_data, bytes, channels) == (
        BufferLayout::Mono { samples: bytes / 4 }),
        has_data && bytes > 0 && channels > 1 ==> layout(has_data, bytes, channels) == (
        BufferLayout::Interleaved { channels, frames: bytes / 4 / channels }),
{
}

/// How the questions on the way to a permission are answered, as far as they are
/// asked.
pub struct PermissionAnswers {
    /// The result of the system's check, where it has one.
    pub check: Option<i32>,
    /// Something was heard.
    pub audible: bool,
    /// What the user answered, where the system could ask.
    pub granted: Option<bool>,
    pub tap_status: i32,
    pub tap: u32,
}

/// The answer to the question of a stage.
pub open spec fn permission_answer(stage: PermissionStage, a: PermissionAnswers) -> PermissionReply {
    match stage {
        PermissionStage::Preflight { .. } => PermissionReply::Preflight(a.check),
        PermissionStage::Probe { .. } => PermissionReply::Probe(a.audible),
        PermissionStage::Request => PermissionReply::Request(a.granted),
        _ => PermissionReply::TapCreated(a.tap_status, a.tap),
    }
}

/// The end of the decision, with all its effects; `most` bounds how many
/// questions are answered.
pub open spec fn decision(turn: PermissionNext, a: PermissionAnswers, most: nat) -> (
    bool,
    Seq<PermissionEffect>,
)
    decreases most,
{
    match turn.ask {
        PermissionAsk::Decided(granted) => (granted, turn.effects),
        _ => if most == 0 {
            (false, turn.effects)
        } else {
            let end = decision(
                permission_turn(turn.stage, permission_answer(turn.stage, a)),
                a,
                (most - 1) as nat,
            );
            (end.0, turn.effects + end.1)
        },
    }
}

/// The questions of the decision, in order.
pub open spec fn permission_asks(turn: PermissionNext, a: PermissionAnswers, most: nat) -> Seq<
    PermissionAsk,
>
    decreases most,
{
    if turn.ask is Decided || most == 0 {
        seq![turn.ask]
    } else {
        seq![turn.ask] + permission_asks(
            permission_turn(turn.stage, permission_answer(turn.stage, a)),
            a,
            (most - 1) as nat,
        )
    }
}

/// The permission is there where the system's check says so, with a zero, or
/// where there is no check and something is heard. Where it is missing and is
/// requested, the user decides; unless they grant it, a tap is made and taken
/// away, so that the system lists the application, and they are shown where to
/// grant it. Without a system that captures audio there is no permission.
pub proof fn law_who_gets_the_permission(
    platform: Platform,
    version: Seq<char>,
    requesting: bool,
    a: PermissionAnswers,
)
    ensures
        ({
            let first = permission_begun(platform, version, requesting);
            let there = match a.check {
                Some(code) => code == 0,
                None => a.audible,
            };
            let checks = if a.check is None {
                seq![PermissionAsk::Preflight, PermissionAsk::Probe]
            } else {
                seq![PermissionAsk::Preflight]
            };
            if !available(platform, version) {
                &&& decision(first, a, 4) == (false, Seq::<PermissionEffect>::empty())
                &&& permission_asks(first, a, 4) == seq![PermissionAsk::Decided(false)]
            } else if there || !requesting {
                &&& decision(first, a, 4) == (there, Seq::<PermissionEffect>::empty())
                &&& permission_asks(first, a, 4) == checks.push(PermissionAsk::Decided(there))
            } else if a.granted == Some(true) {
                &&& decision(first, a, 4) == (true, Seq::<PermissionEffect>::empty())
                &&& permission_asks(first, a, 4) == checks.push(PermissionAsk::Request).push(
                    PermissionAsk::Decided(true),
                )
            } else {
                &&& decision(first, a, 4) == (
                    false,
                    if a.tap_status == 0 {
                        seq![PermissionEffect::DestroyTap(a.tap), PermissionEffect::OpenSettings]
                    } else {
                        seq![PermissionEffect::OpenSettings]
                    },
                )
                &&& permission_asks(first, a, 4) == checks.push(PermissionAsk::Request).push(
                    PermissionAsk::CreateTap,
                ).push(PermissionAsk::Decided(false))
            }
        }),
{
    reveal_with_fuel(decision, 6);
    reveal_with_fuel(permission_asks, 6);
    let first = permission_begun(platform, version, requesting);
    let none = Seq::<PermissionEffect>::empty();
    assert(none + none =~= none);
    let effects = if a.tap_status == 0 {
        seq![PermissionEffect::DestroyTap(a.tap), PermissionEffect::OpenSettings]
    } else {
        seq![PermissionEffect::OpenSettings]
    };
    assert(none + effects =~= effects);
}

/// What the codes of the system's check mean, and what answers which question.
pub proof fn law_what_the_check_says(code: i32, stage: PermissionStage, reply: PermissionReply)
    ensures
        status_of(code) is Authorized <==> code == 0,
        status_of(code) is Denied <==> code == 1,
        permission_answers(stage, reply) <==> match reply {
            PermissionReply::Preflight(_) => stage is Preflight,
            PermissionReply::Probe(_) => stage is Probe,
            PermissionReply::Request(_) => stage is Request,
            PermissionReply::TapCreated(_, _) => stage is CreateTap,
        },
{
}

/// Half a second after its beginning a probe has found nothing. Before that,
/// samples that are not silent decide for the permission, and the end of the
/// capture against it; silence, and waiting in vain, decide nothing.
pub proof fn law_what_a_probe_makes_of_a_part(elapsed_ms: u64, event: ProbeEvent)
    ensures
        elapsed_ms >= 500 ==> part_verdict(elapsed_ms, event) == Some(false),
        elapsed_ms < 500 ==> part_verdict(elapsed_ms, event) == match event {
            ProbeEvent::Samples(true) => Some(true),
            ProbeEvent::Disconnected => Some(false),
            _ => None,
        },
        probe_verdict(Seq::empty()) is None,
{
}

/// The entries of a description are told by their keys and values.
pub proof fn law_entries_are_told_by_their_texts(
    entries: Seq<AggregateEntry<String>>,
    i: int,
)
    requires
        0 <= i < entries.len(),
    ensures
        entries_of(entries).len() == entries.len(),
        entries_of(entries)[i].key == entries[i].key@,
        match entries[i].value {
            AggregateValue::Text(text) => entries_of(entries)[i].value == AggregateValue::Text(
                text@,
            ),
            AggregateValue::Number(n) => entries_of(entries)[i].value == AggregateValue::<
                Seq<char>,
            >::Number(n),
            AggregateValue::Listed(uid) => entries_of(entries)[i].value == AggregateValue::Listed(
                uid@,
            ),
        },
{
}

} // verus!
