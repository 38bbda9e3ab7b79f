//! The life cycle of a capture: a process tap, an aggregate device around it,
//! and a callback on the device, which are taken down in reverse order.

use vstd::prelude::*;
use vstd::string::*;

verus! {

/// The sample rate of a tap that does not tell its own.
pub const DEFAULT_SAMPLE_RATE: u32 = 48000;

/// A value in the description of an aggregate device; `T` is the type of texts.
pub enum AggregateValue<T> {
    Text(T),
    Number(i32),
    /// A list with one item, which has nothing but this uid.
    Listed(T),
}

/// An entry in the description of an aggregate device.
pub struct AggregateEntry<T> {
    pub key: T,
    pub value: AggregateValue<T>,
}

impl View for AggregateEntry<String> {
    type V = AggregateEntry<Seq<char>>;

    open spec fn view(&self) -> AggregateEntry<Seq<char>> {
        AggregateEntry {
            key: self.key@,
            value: match self.value {
                AggregateValue::Text(text) => AggregateValue::Text(text@),
                AggregateValue::Number(n) => AggregateValue::Number(n),
                AggregateValue::Listed(uid) => AggregateValue::Listed(uid@),
            },
        }
    }
}

/// The entries of a description.
pub open spec fn entries_of(v: Seq<AggregateEntry<String>>) -> Seq<AggregateEntry<Seq<char>>> {
    v.map_values(|e: AggregateEntry<String>| e@)
}

pub open spec fn text_entry(key: Seq<char>, text: Seq<char>) -> AggregateEntry<Seq<char>> {
    AggregateEntry { key, value: AggregateValue::Text(text) }
}

pub open spec fn number_entry(key: Seq<char>, n: i32) -> AggregateEntry<Seq<char>> {
    AggregateEntry { key, value: AggregateValue::Number(n) }
}

pub open spec fn list_entry(key: Seq<char>, uid: Seq<char>) -> AggregateEntry<Seq<char>> {
    AggregateEntry { key, value: AggregateValue::Listed(uid) }
}

/// The device around a tap: private, not stacked, started with the tap, and
/// driven by the clock of the output device, which is part of it.
pub open spec fn description(tap_uuid: Seq<char>, output_uid: Seq<char>) -> Seq<
    AggregateEntry<Seq<char>>,
> {
    seq![
        text_entry("uid"@, "com.handy.system-audio-tap"@),
        text_entry("name"@, "Handy System Audio"@),
        number_entry("private"@, 1),
        number_entry("stacked"@, 0),
        number_entry("tapautostart"@, 1),
        text_entry("master"@, output_uid),
        text_entry("clock"@, output_uid),
        list_entry("sub"@, output_uid),
        list_entry("taps"@, tap_uuid),
    ]
}

fn text(key: &str, value: &str) -> (r: AggregateEntry<String>)
    ensures
        r@ == text_entry(key@, value@),
{
    AggregateEntry { key: key.to_owned(), value: AggregateValue::Text(value.to_owned()) }
}

fn number(key: &str, n: i32) -> (r: AggregateEntry<String>)
    ensures
        r@ == number_entry(key@, n),
{
    AggregateEntry { key: key.to_owned(), value: AggregateValue::Number(n) }
}

fn list(key: &str, uid: &str) -> (r: AggregateEntry<String>)
    ensures
        r@ == list_entry(key@, uid@),
{
    AggregateEntry { key: key.to_owned(), value: AggregateValue::Listed(uid.to_owned()) }
}

/// The description of the device around a tap.
pub fn build_aggregate_device(tap_uuid: &str, output_uid: &str) -> (r: Vec<AggregateEntry<String>>)
    ensures
        entries_of(r@) == description(tap_uuid@, output_uid@),
{
    let mut r: Vec<AggregateEntry<String>> = Vec::new();
    r.push(text("uid", "com.handy.system-audio-tap"));
    r.push(text("name", "Handy System Audio"));
    r.push(number("private", 1));
    r.push(number("stacked", 0));
    r.push(number("tapautostart", 1));
    r.push(text("master", output_uid));
    r.push(text("clock", output_uid));
    r.push(list("sub", output_uid));
    r.push(list("taps", tap_uuid));
    proof {
        assert(entries_of(r@) =~= description(tap_uuid@, output_uid@));
    }
    r
}

/// Why a capture did not start, with the status that the system gave.
#[derive(Clone, Copy, Debug, PartialEq, Eq, Structural)]
pub enum CaptureError {
    AlreadyRunning,
    CreateTap(i32),
    CreateAggregate(i32),
    CreateIoProc(i32),
    StartDevice(i32),
}

/// The words of an error, before its status.
pub open spec fn capture_error_prefix(error: CaptureError) -> Seq<char> {
    match error {
        CaptureError::AlreadyRunning => "System audio capture is already running"@,
        CaptureError::CreateTap(_) => "AudioHardwareCreateProcessTap failed with status "@,
        CaptureError::CreateAggregate(_) => {
            "AudioHardwareCreateAggregateDevice failed with status "@
        },
        CaptureError::CreateIoProc(_) => "AudioDeviceCreateIOProcID failed with status "@,
        CaptureError::StartDevice(_) => "AudioDeviceStart failed with status "@,
    }
}

impl CaptureError {
    /// The status, where there is one.
    pub fn status(&self) -> (r: Option<i32>)
        ensures
            r == match *self {
                CaptureError::AlreadyRunning => None,
                CaptureError::CreateTap(status) => Some(status),
                CaptureError::CreateAggregate(status) => Some(status),
                CaptureError::CreateIoProc(status) => Some(status),
                CaptureError::StartDevice(status) => Some(status),
            },
    {
        match *self {
            CaptureError::AlreadyRunning => None,
            CaptureError::CreateTap(status)
            | CaptureError::CreateAggregate(status)
            | CaptureError::CreateIoProc(status)
            | CaptureError::StartDevice(status) => Some(status),
        }
    }

    /// The error in words; `status` is the status in digits.
    pub fn message(&self, status: &str) -> (r: String)
        ensures
            r@ == if *self is AlreadyRunning {
                capture_error_prefix(*self)
            } else {
                capture_error_prefix(*self) + status@
            },
    {
        let prefix = match self {
            CaptureError::AlreadyRunning => {
                return "System audio capture is already running".to_owned();
            },
            CaptureError::CreateTap(_) => "AudioHardwareCreateProcessTap failed with status ",
            CaptureError::CreateAggregate(_) => {
                "AudioHardwareCreateAggregateDevice failed with status "
            },
            CaptureError::CreateIoProc(_) => "AudioDeviceCreateIOProcID failed with status ",
            CaptureError::StartDevice(_) => "AudioDeviceStart failed with status ",
        };
        prefix.to_owned().concat(status)
    }
}

/// An effect of starting or stopping a capture; `P` is the type of callbacks.
pub enum CaptureEffect<P> {
    /// Start to count the callbacks anew.
    ResetCounters,
    StopDevice { device: u32, io_proc: P },
    DestroyIoProc { device: u32, io_proc: P },
    DestroyAggregate(u32),
    DestroyTap(u32),
}

/// A question of starting a capture; `D` is the type of descriptions.
pub enum CaptureAsk<P, D> {
    /// Create a tap on everything that plays. What are the status, the tap and
    /// its uuid?
    CreateTap,
    /// What are the status and the default output device?
    ReadDefaultOutput,
    /// What are the status and the uid of the device?
    ReadDeviceUid(u32),
    /// Create the aggregate device. What are the status and the device?
    CreateAggregate(D),
    /// What are the status and the sample rate of the tap?
    ReadTapFormat(u32),
    /// Create a callback on the device. What are the status and the callback?
    CreateIoProc(u32),
    /// Start the device. What is the status?
    StartDevice { device: u32, io_proc: P },
    /// Nothing: the capture runs at this sample rate, or did not start.
    Finished(Result<u32, CaptureError>),
}

/// How far a capture has come; `T` is the type of texts.
pub enum CaptureStage<P, T> {
    Stopped,
    CreatingTap,
    ReadingDefaultOutput { tap: u32, uuid: T },
    ReadingDeviceUid { tap: u32, uuid: T },
    CreatingAggregate { tap: u32 },
    ReadingTapFormat { tap: u32, device: u32 },
    CreatingIoProc { tap: u32, device: u32, rate: u32 },
    StartingDevice { tap: u32, device: u32, rate: u32, io_proc: P },
    Running { tap: u32, device: u32, io_proc: P },
}

impl<P> View for CaptureAsk<P, Vec<AggregateEntry<String>>> {
    type V = CaptureAsk<P, Seq<AggregateEntry<Seq<char>>>>;

    open spec fn view(&self) -> CaptureAsk<P, Seq<AggregateEntry<Seq<char>>>> {
        match self {
            CaptureAsk::CreateTap => CaptureAsk::CreateTap,
            CaptureAsk::ReadDefaultOutput => CaptureAsk::ReadDefaultOutput,
            CaptureAsk::ReadDeviceUid(device) => CaptureAsk::ReadDeviceUid(*device),
            CaptureAsk::CreateAggregate(d) => CaptureAsk::CreateAggregate(entries_of(d@)),
            CaptureAsk::ReadTapFormat(tap) => CaptureAsk::ReadTapFormat(*tap),
            CaptureAsk::CreateIoProc(device) => CaptureAsk::CreateIoProc(*device),
            CaptureAsk::StartDevice { device, io_proc } => CaptureAsk::StartDevice {
                device: *device,
                io_proc: *io_proc,
            },
            CaptureAsk::Finished(r) => CaptureAsk::Finished(*r),
        }
    }
}

impl<P> View for CaptureStage<P, String> {
    type V = CaptureStage<P, Seq<char>>;

    open spec fn view(&self) -> CaptureStage<P, Seq<char>> {
        match *self {
            CaptureStage::Stopped => CaptureStage::Stopped,
            CaptureStage::CreatingTap => CaptureStage::CreatingTap,
            CaptureStage::ReadingDefaultOutput { tap, uuid } => CaptureStage::ReadingDefaultOutput {
                tap,
                uuid: uuid@,
            },
            CaptureStage::ReadingDeviceUid { tap, uuid } => CaptureStage::ReadingDeviceUid {
                tap,
                uuid: uuid@,
            },
            CaptureStage::CreatingAggregate { tap } => CaptureStage::CreatingAggregate { tap },
            CaptureStage::ReadingTapFormat { tap, device } => CaptureStage::ReadingTapFormat {
                tap,
                device,
            },
            CaptureStage::CreatingIoProc { tap, device, rate } => CaptureStage::CreatingIoProc {
                tap,
                device,
                rate,
            },
            CaptureStage::StartingDevice { tap, device, rate, io_proc } => {
                CaptureStage::StartingDevice { tap, device, rate, io_proc }
            },
            CaptureStage::Running { tap, device, io_proc } => CaptureStage::Running {
                tap,
                device,
                io_proc,
            },
        }
    }
}

/// A turn of starting a capture: where it has come to, the effects to carry out
/// in order, and the question to answer.
pub struct CaptureNext<P> {
    pub stage: CaptureStage<P, Seq<char>>,
    pub effects: Seq<CaptureEffect<P>>,
    pub ask: CaptureAsk<P, Seq<AggregateEntry<Seq<char>>>>,
}

/// The next question, without an effect.
pub open spec fn going_on<P>(
    stage: CaptureStage<P, Seq<char>>,
    ask: CaptureAsk<P, Seq<AggregateEntry<Seq<char>>>>,
) -> CaptureNext<P> {
    CaptureNext { stage, effects: Seq::empty(), ask }
}

/// The capture did not start.
pub open spec fn failing<P>(effects: Seq<CaptureEffect<P>>, error: CaptureError) -> CaptureNext<P> {
    CaptureNext { stage: CaptureStage::Stopped, effects, ask: CaptureAsk::Finished(Err(error)) }
}

/// A capture is to start.
pub open spec fn capture_begun<P>(stage: CaptureStage<P, Seq<char>>) -> CaptureNext<P> {
    if stage is Running {
        CaptureNext {
            stage,
            effects: Seq::empty(),
            ask: CaptureAsk::Finished(Err(CaptureError::AlreadyRunning)),
        }
    } else {
        CaptureNext {
            stage: CaptureStage::CreatingTap,
            effects: seq![CaptureEffect::ResetCounters],
            ask: CaptureAsk::CreateTap,
        }
    }
}

pub open spec fn tap_made<P>(status: i32, tap: u32, uuid: Seq<char>) -> CaptureNext<P> {
    if status != 0 {
        failing(Seq::empty(), CaptureError::CreateTap(status))
    } else {
        going_on(
            CaptureStage::ReadingDefaultOutput { tap, uuid },
            CaptureAsk::ReadDefaultOutput,
        )
    }
}

/// The aggregate device is to be created; without an output device, its uid is
/// empty.
pub open spec fn describing<P>(tap: u32, uuid: Seq<char>, output_uid: Seq<char>) -> CaptureNext<P> {
    going_on(
        CaptureStage::CreatingAggregate { tap },
        CaptureAsk::CreateAggregate(description(uuid, output_uid)),
    )
}

pub open spec fn default_output_read<P>(
    tap: u32,
    uuid: Seq<char>,
    status: i32,
    device: u32,
) -> CaptureNext<P> {
    if status != 0 || device == 0 {
        describing(tap, uuid, Seq::empty())
    } else {
        going_on(
            CaptureStage::ReadingDeviceUid { tap, uuid },
            CaptureAsk::ReadDeviceUid(device),
        )
    }
}

/// The uid of a device that was read; the empty text where that failed.
pub open spec fn read_uid(status: i32, uid: Option<Seq<char>>) -> Seq<char> {
    match uid {
        Some(uid) => if status == 0 {
            uid
        } else {
            Seq::empty()
        },
        None => Seq::empty(),
    }
}

pub open spec fn aggregate_made<P>(tap: u32, status: i32, device: u32) -> CaptureNext<P> {
    if status != 0 {
        failing(seq![CaptureEffect::DestroyTap(tap)], CaptureError::CreateAggregate(status))
    } else {
        going_on(
            CaptureStage::ReadingTapFormat { tap, device },
            CaptureAsk::ReadTapFormat(tap),
        )
    }
}

/// The sample rate that was read, or the usual one where that failed.
pub open spec fn tap_rate(status: i32, rate: u32) -> u32 {
    if status != 0 {
        DEFAULT_SAMPLE_RATE
    } else {
        rate
    }
}

pub open spec fn tap_format_read<P>(tap: u32, device: u32, status: i32, rate: u32) -> CaptureNext<
    P,
> {
    going_on(
        CaptureStage::CreatingIoProc { tap, device, rate: tap_rate(status, rate) },
        CaptureAsk::CreateIoProc(device),
    )
}

pub open spec fn io_proc_made<P>(
    tap: u32,
    device: u32,
    rate: u32,
    status: i32,
    io_proc: P,
) -> CaptureNext<P> {
    if status != 0 {
        failing(
            seq![CaptureEffect::DestroyAggregate(device), CaptureEffect::DestroyTap(tap)],
            CaptureError::CreateIoProc(status),
        )
    } else {
        going_on(
            CaptureStage::StartingDevice { tap, device, rate, io_proc },
            CaptureAsk::StartDevice { device, io_proc },
        )
    }
}

pub open spec fn device_begun<P>(
    tap: u32,
    device: u32,
    rate: u32,
    io_proc: P,
    status: i32,
) -> CaptureNext<P> {
    if status != 0 {
        failing(
            seq![
                CaptureEffect::DestroyIoProc { device, io_proc },
                CaptureEffect::DestroyAggregate(device),
                CaptureEffect::DestroyTap(tap),
            ],
            CaptureError::StartDevice(status),
        )
    } else {
        going_on(CaptureStage::Running { tap, device, io_proc }, CaptureAsk::Finished(Ok(rate)))
    }
}

/// The effects of stopping a capture.
pub open spec fn stopping_effects<P>(stage: CaptureStage<P, Seq<char>>) -> Seq<CaptureEffect<P>> {
    match stage {
        CaptureStage::Running { tap, device, io_proc } => seq![
            CaptureEffect::StopDevice { device, io_proc },
            CaptureEffect::DestroyIoProc { device, io_proc },
            CaptureEffect::DestroyAggregate(device),
            CaptureEffect::DestroyTap(tap),
        ],
        _ => Seq::empty(),
    }
}

/// A turn of starting a capture: the effects to carry out in order, then the
/// question to answer.
pub struct CaptureTurn<P> {
    pub effects: Vec<CaptureEffect<P>>,
    pub ask: CaptureAsk<P, Vec<AggregateEntry<String>>>,
}

impl<P> CaptureTurn<P> {
    /// This turn, together with where it has come to.
    pub open spec fn leading_to(self, stage: CaptureStage<P, Seq<char>>) -> CaptureNext<P> {
        CaptureNext { stage, effects: self.effects@, ask: self.ask@ }
    }
}

/// A capture of the system audio.
pub struct SystemAudioCapture<P> {
    stage: CaptureStage<P, String>,
}

impl<P> View for SystemAudioCapture<P> {
    type V = CaptureStage<P, Seq<char>>;

    closed spec fn view(&self) -> CaptureStage<P, Seq<char>> {
        self.stage@
    }
}

impl<P: Copy> SystemAudioCapture<P> {
    /// A capture that does not run.
    pub fn new() -> (r: Self)
        ensures
            r@ is Stopped,
    {
        SystemAudioCapture { stage: CaptureStage::Stopped }
    }

    /// Whether the capture runs.
    pub fn is_running(&self) -> (b: bool)
        ensures
            b == self@ is Running,
    {
        match self.stage {
            CaptureStage::Running { .. } => true,
            _ => false,
        }
    }

    /// Starts the capture, unless it runs already.
    pub fn start(&mut self) -> (turn: CaptureTurn<P>)
        requires
            old(self)@ is Stopped || old(self)@ is Running,
        ensures
            turn.leading_to(final(self)@) == capture_begun(old(self)@),
    {
        if self.is_running() {
            return CaptureTurn {
                effects: Vec::new(),
                ask: CaptureAsk::Finished(Err(CaptureError::AlreadyRunning)),
            };
        }
        self.stage = CaptureStage::CreatingTap;
        let mut effects: Vec<CaptureEffect<P>> = Vec::new();
        effects.push(CaptureEffect::ResetCounters);
        proof {
            assert(effects@ =~= seq![CaptureEffect::<P>::ResetCounters]);
        }
        CaptureTurn { effects, ask: CaptureAsk::CreateTap }
    }

    /// Goes on when the tap was to be created.
    pub fn tap_created(&mut self, status: i32, tap: u32, uuid: String) -> (turn: CaptureTurn<P>)
        requires
            old(self)@ is CreatingTap,
        ensures
            turn.leading_to(final(self)@) == tap_made::<P>(status, tap, uuid@),
    {
        if status != 0 {
            self.fail(Vec::new(), CaptureError::CreateTap(status))
        } else {
            self.go_on(
                CaptureStage::ReadingDefaultOutput { tap, uuid },
                CaptureAsk::ReadDefaultOutput,
            )
        }
    }

    /// Goes on when the default output device was read.
    pub fn default_output(&mut self, status: i32, device: u32) -> (turn: CaptureTurn<P>)
        requires
            old(self)@ is ReadingDefaultOutput,
        ensures
            old(self)@ matches CaptureStage::ReadingDefaultOutput { tap, uuid }
                && turn.leading_to(final(self)@) == default_output_read::<P>(
                tap,
                uuid,
                status,
                device,
            ),
    {
        let mut stage = CaptureStage::Stopped;
        core::mem::swap(&mut stage, &mut self.stage);
        match stage {
            CaptureStage::ReadingDefaultOutput { tap, uuid } => {
                if status != 0 || device == 0 {
                    self.describe(tap, uuid, String::new())
                } else {
                    self.go_on(
                        CaptureStage::ReadingDeviceUid { tap, uuid },
                        CaptureAsk::ReadDeviceUid(device),
                    )
                }
            },
            _ => self.fail(Vec::new(), CaptureError::AlreadyRunning),
        }
    }

    /// Goes on when the uid of the output device was read.
    pub fn device_uid(&mut self, status: i32, uid: Option<String>) -> (turn: CaptureTurn<P>)
        requires
            old(self)@ is ReadingDeviceUid,
        ensures
            old(self)@ matches CaptureStage::ReadingDeviceUid { tap, uuid } && turn.leading_to(
                final(self)@,
            ) == describing::<P>(
                tap,
                uuid,
                read_uid(
                    status,
                    match uid {
                        Some(uid) => Some(uid@),
                        None => None,
                    },
                ),
            ),
    {
        let mut stage = CaptureStage::Stopped;
        core::mem::swap(&mut stage, &mut self.stage);
        let output_uid = match uid {
            Some(uid) => {
                if status == 0 {
                    uid
                } else {
                    String::new()
                }
            },
            None => String::new(),
        };
        match stage {
            CaptureStage::ReadingDeviceUid { tap, uuid } => self.describe(tap, uuid, output_uid),
            _ => self.fail(Vec::new(), CaptureError::AlreadyRunning),
        }
    }

    /// Goes on when the aggregate device was to be created.
    pub fn aggregate_created(&mut self, status: i32, device: u32) -> (turn: CaptureTurn<P>)
        requires
            old(self)@ is CreatingAggregate,
        ensures
            old(self)@ matches CaptureStage::CreatingAggregate { tap } && turn.leading_to(
                final(self)@,
            ) == aggregate_made::<P>(tap, status, device),
    {
        match self.stage {
            CaptureStage::CreatingAggregate { tap } => {
                if status != 0 {
                    let mut effects: Vec<CaptureEffect<P>> = Vec::new();
                    effects.push(CaptureEffect::DestroyTap(tap));
                    proof {
                        assert(effects@ =~= seq![CaptureEffect::<P>::DestroyTap(tap)]);
                    }
                    self.fail(effects, CaptureError::CreateAggregate(status))
                } else {
                    self.go_on(
                        CaptureStage::ReadingTapFormat { tap, device },
                        CaptureAsk::ReadTapFormat(tap),
                    )
                }
            },
            _ => self.fail(Vec::new(), CaptureError::AlreadyRunning),
        }
    }

    /// Goes on when the format of the tap was read.
    pub fn tap_format(&mut self, status: i32, rate: u32) -> (turn: CaptureTurn<P>)
        requires
            old(self)@ is ReadingTapFormat,
        ensures
            old(self)@ matches CaptureStage::ReadingTapFormat { tap, device } && turn.leading_to(
                final(self)@,
            ) == tap_format_read::<P>(tap, device, status, rate),
    {
        let rate = if status != 0 {
            DEFAULT_SAMPLE_RATE
        } else {
            rate
        };
        match self.stage {
            CaptureStage::ReadingTapFormat { tap, device } => self.go_on(
                CaptureStage::CreatingIoProc { tap, device, rate },
                CaptureAsk::CreateIoProc(device),
            ),
            _ => self.fail(Vec::new(), CaptureError::AlreadyRunning),
        }
    }

    /// Goes on when the callback was to be created.
    pub fn io_proc_created(&mut self, status: i32, io_proc: P) -> (turn: CaptureTurn<P>)
        requires
            old(self)@ is CreatingIoProc,
        ensures
            old(self)@ matches CaptureStage::CreatingIoProc { tap, device, rate }
                && turn.leading_to(final(self)@) == io_proc_made::<P>(
                tap,
                device,
                rate,
                status,
                io_proc,
            ),
    {
        match self.stage {
            CaptureStage::CreatingIoProc { tap, device, rate } => {
                if status != 0 {
                    let mut effects: Vec<CaptureEffect<P>> = Vec::new();
                    effects.push(CaptureEffect::DestroyAggregate(device));
                    effects.push(CaptureEffect::DestroyTap(tap));
                    proof {
                        assert(effects@ =~= seq![
                            CaptureEffect::<P>::DestroyAggregate(device),
                            CaptureEffect::<P>::DestroyTap(tap),
                        ]);
                    }
                    self.fail(effects, CaptureError::CreateIoProc(status))
                } else {
                    self.go_on(
                        CaptureStage::StartingDevice { tap, device, rate, io_proc },
                        CaptureAsk::StartDevice { device, io_proc },
                    )
                }
            },
            _ => self.fail(Vec::new(), CaptureError::AlreadyRunning),
        }
    }

    /// Goes on when the device was to be started.
    pub fn device_started(&mut self, status: i32) -> (turn: CaptureTurn<P>)
        requires
            old(self)@ is StartingDevice,
        ensures
            old(self)@ matches CaptureStage::StartingDevice { tap, device, rate, io_proc }
                && turn.leading_to(final(self)@) == device_begun::<P>(
                tap,
                device,
                rate,
                io_proc,
                status,
            ),
    {
        match self.stage {
            CaptureStage::StartingDevice { tap, device, rate, io_proc } => {
                if status != 0 {
                    let mut effects: Vec<CaptureEffect<P>> = Vec::new();
                    effects.push(CaptureEffect::DestroyIoProc { device, io_proc });
                    effects.push(CaptureEffect::DestroyAggregate(device));
                    effects.push(CaptureEffect::DestroyTap(tap));
                    proof {
                        assert(effects@ =~= seq![
                            CaptureEffect::<P>::DestroyIoProc { device, io_proc },
                            CaptureEffect::<P>::DestroyAggregate(device),
                            CaptureEffect::<P>::DestroyTap(tap),
                        ]);
                    }
                    self.fail(effects, CaptureError::StartDevice(status))
                } else {
                    self.go_on(
                        CaptureStage::Running { tap, device, io_proc },
                        CaptureAsk::Finished(Ok(rate)),
                    )
                }
            },
            _ => self.fail(Vec::new(), CaptureError::AlreadyRunning),
        }
    }

    /// Stops the capture, if it runs.
    pub fn stop(&mut self) -> (effects: Vec<CaptureEffect<P>>)
        requires
            old(self)@ is Stopped || old(self)@ is Running,
        ensures
            final(self)@ is Stopped,
            effects@ == stopping_effects(old(self)@),
    {
        let mut effects: Vec<CaptureEffect<P>> = Vec::new();
        if let CaptureStage::Running { tap, device, io_proc } = self.stage {
            effects.push(CaptureEffect::StopDevice { device, io_proc });
            effects.push(CaptureEffect::DestroyIoProc { device, io_proc });
            effects.push(CaptureEffect::DestroyAggregate(device));
            effects.push(CaptureEffect::DestroyTap(tap));
        }
        self.stage = CaptureStage::Stopped;
        effects
    }

    fn go_on(
        &mut self,
        stage: CaptureStage<P, String>,
        ask: CaptureAsk<P, Vec<AggregateEntry<String>>>,
    ) -> (turn: CaptureTurn<P>)
        ensures
            turn.leading_to(final(self)@) == going_on(stage@, ask@),
    {
        self.stage = stage;
        CaptureTurn { effects: Vec::new(), ask }
    }

    fn fail(&mut self, effects: Vec<CaptureEffect<P>>, error: CaptureError) -> (turn: CaptureTurn<
        P,
    >)
        ensures
            turn.leading_to(final(self)@) == failing(effects@, error),
    {
        self.stage = CaptureStage::Stopped;
        CaptureTurn { effects, ask: CaptureAsk::Finished(Err(error)) }
    }

    fn describe(&mut self, tap: u32, uuid: String, output_uid: String) -> (turn: CaptureTurn<P>)
        ensures
            turn.leading_to(final(self)@) == describing::<P>(tap, uuid@, output_uid@),
    {
        let entries = build_aggregate_device(uuid.as_str(), output_uid.as_str());
        self.go_on(CaptureStage::CreatingAggregate { tap }, CaptureAsk::CreateAggregate(entries))
    }
}

/// Something that a capture has had the system create.
pub enum Resource<P> {
    Tap(u32),
    Aggregate(u32),
    IoProc { device: u32, io_proc: P },
}

/// What has been created at a stage, in order.
pub open spec fn held<P>(stage: CaptureStage<P, Seq<char>>) -> Seq<Resource<P>> {
    match stage {
        CaptureStage::Stopped | CaptureStage::CreatingTap => Seq::empty(),
        CaptureStage::ReadingDefaultOutput { tap, .. }
        | CaptureStage::ReadingDeviceUid { tap, .. }
        | CaptureStage::CreatingAggregate { tap } => seq![Resource::Tap(tap)],
        CaptureStage::ReadingTapFormat { tap, device }
        | CaptureStage::CreatingIoProc { tap, device, .. } => seq![
            Resource::Tap(tap),
            Resource::Aggregate(device),
        ],
        CaptureStage::StartingDevice { tap, device, io_proc, .. }
        | CaptureStage::Running { tap, device, io_proc } => seq![
            Resource::Tap(tap),
            Resource::Aggregate(device),
            Resource::IoProc { device, io_proc },
        ],
    }
}

/// The effects that destroy what has been created, last first.
pub open spec fn teardown<P>(resources: Seq<Resource<P>>) -> Seq<CaptureEffect<P>>
    decreases resources.len(),
{
    if resources.len() == 0 {
        Seq::empty()
    } else {
        seq![
            match resources.last() {
                Resource::Tap(tap) => CaptureEffect::DestroyTap(tap),
                Resource::Aggregate(device) => CaptureEffect::DestroyAggregate(device),
                Resource::IoProc { device, io_proc } => CaptureEffect::DestroyIoProc {
                    device,
                    io_proc,
                },
            },
        ] + teardown(resources.drop_last())
    }
}

proof fn lemma_teardown<P>(tap: u32, device: u32, io_proc: P)
    ensures
        teardown(seq![Resource::<P>::Tap(tap)]) == seq![CaptureEffect::<P>::DestroyTap(tap)],
        teardown(seq![Resource::<P>::Tap(tap), Resource::Aggregate(device)]) == seq![
            CaptureEffect::<P>::DestroyAggregate(device),
            CaptureEffect::DestroyTap(tap),
        ],
        teardown(
            seq![
                Resource::<P>::Tap(tap),
                Resource::Aggregate(device),
                Resource::IoProc { device, io_proc },
            ],
        ) == seq![
            CaptureEffect::<P>::DestroyIoProc { device, io_proc },
            CaptureEffect::DestroyAggregate(device),
            CaptureEffect::DestroyTap(tap),
        ],
{
    let one = seq![Resource::<P>::Tap(tap)];
    let two = seq![Resource::<P>::Tap(tap), Resource::Aggregate(device)];
    let three = seq![
        Resource::<P>::Tap(tap),
        Resource::Aggregate(device),
        Resource::IoProc { device, io_proc },
    ];
    assert(one.drop_last() =~= Seq::<Resource<P>>::empty());
    assert(two.drop_last() =~= one);
    assert(three.drop_last() =~= two);
    assert(teardown(Seq::<Resource<P>>::empty()) =~= Seq::<CaptureEffect<P>>::empty());
    assert(teardown(one) =~= seq![CaptureEffect::<P>::DestroyTap(tap)]);
    assert(teardown(two) =~= seq![
        CaptureEffect::<P>::DestroyAggregate(device),
        CaptureEffect::DestroyTap(tap),
    ]);
    assert(teardown(three) =~= seq![
        CaptureEffect::<P>::DestroyIoProc { device, io_proc },
        CaptureEffect::DestroyAggregate(device),
        CaptureEffect::DestroyTap(tap),
    ]);
}

/// A start that fails leaves nothing behind: wherever it fails, it destroys what
/// had been created, last first. A step that succeeds destroys nothing, and what
/// it creates comes on top.
pub proof fn law_failed_start_leaves_nothing<P>(
    tap: u32,
    uuid: Seq<char>,
    device: u32,
    rate: u32,
    io_proc: P,
    status: i32,
)
    ensures
        status != 0 ==> {
            &&& tap_made::<P>(status, tap, uuid).effects == teardown(
                held(CaptureStage::<P, Seq<char>>::CreatingTap),
            )
            &&& aggregate_made::<P>(tap, status, device).effects == teardown(
                held(CaptureStage::<P, Seq<char>>::CreatingAggregate { tap }),
            )
            &&& io_proc_made(tap, device, rate, status, io_proc).effects == teardown(
                held(CaptureStage::<P, Seq<char>>::CreatingIoProc { tap, device, rate }),
            )
            &&& device_begun(tap, device, rate, io_proc, status).effects == teardown(
                held(
                    CaptureStage::<P, Seq<char>>::StartingDevice { tap, device, rate, io_proc },
                ),
            )
            &&& tap_made::<P>(status, tap, uuid).stage is Stopped
            &&& aggregate_made::<P>(tap, status, device).stage is Stopped
            &&& io_proc_made(tap, device, rate, status, io_proc).stage is Stopped
            &&& device_begun(tap, device, rate, io_proc, status).stage is Stopped
        },
        status == 0 ==> {
            &&& held(tap_made::<P>(status, tap, uuid).stage) == held(
                CaptureStage::<P, Seq<char>>::CreatingTap,
            ).push(Resource::Tap(tap))
            &&& held(aggregate_made::<P>(tap, status, device).stage) == held(
                CaptureStage::<P, Seq<char>>::CreatingAggregate { tap },
            ).push(Resource::Aggregate(device))
            &&& held(io_proc_made(tap, device, rate, status, io_proc).stage) == held(
                CaptureStage::<P, Seq<char>>::CreatingIoProc { tap, device, rate },
            ).push(Resource::IoProc { device, io_proc })
            &&& device_begun(tap, device, rate, io_proc, status).stage == (CaptureStage::<
                P,
                Seq<char>,
            >::Running { tap, device, io_proc })
        },
{
    lemma_teardown(tap, device, io_proc);
    if status == 0 {
        assert(held(tap_made::<P>(status, tap, uuid).stage) =~= held(
            CaptureStage::<P, Seq<char>>::CreatingTap,
        ).push(Resource::Tap(tap)));
        assert(held(aggregate_made::<P>(tap, status, device).stage) =~= held(
            CaptureStage::<P, Seq<char>>::CreatingAggregate { tap },
        ).push(Resource::Aggregate(device)));
        assert(held(io_proc_made(tap, device, rate, status, io_proc).stage) =~= held(
            CaptureStage::<P, Seq<char>>::CreatingIoProc { tap, device, rate },
        ).push(Resource::IoProc { device, io_proc }));
    } else {
        assert(tap_made::<P>(status, tap, uuid).effects =~= teardown(
            held(CaptureStage::<P, Seq<char>>::CreatingTap),
        ));
    }
}

/// Stopping a capture that runs stops the device, then destroys everything that
/// starting it has created, last first. Stopping it again does nothing.
pub proof fn law_stop_undoes_start<P>(tap: u32, device: u32, io_proc: P)
    ensures
        stopping_effects(CaptureStage::<P, Seq<char>>::Running { tap, device, io_proc }) == seq![
            CaptureEffect::<P>::StopDevice { device, io_proc },
        ] + teardown(held(CaptureStage::<P, Seq<char>>::Running { tap, device, io_proc })),
        stopping_effects(CaptureStage::<P, Seq<char>>::Stopped) == Seq::<CaptureEffect<P>>::empty(),
{
    lemma_teardown(tap, device, io_proc);
    assert(stopping_effects(CaptureStage::<P, Seq<char>>::Running { tap, device, io_proc }) =~= seq![
        CaptureEffect::<P>::StopDevice { device, io_proc },
    ] + teardown(held(CaptureStage::<P, Seq<char>>::Running { tap, device, io_proc })));
}

/// How the samples of a buffer are laid out.
#[derive(Clone, Copy, Debug, PartialEq, Eq, Structural)]
pub enum BufferLayout {
    /// There is nothing in it.
    Empty,
    /// So many samples of one channel.
    Mono { samples: u32 },
    /// So many frames, each with a sample for every channel.
    Interleaved { channels: u32, frames: u32 },
}

/// The layout of a buffer of samples of four bytes. What does not fill a frame
/// is left over.
pub open spec fn layout(has_data: bool, bytes: u32, channels: u32) -> BufferLayout {
    if !has_data || bytes == 0 {
        BufferLayout::Empty
    } else if channels <= 1 {
        BufferLayout::Mono { samples: bytes / 4 }
    } else {
        BufferLayout::Interleaved { channels, frames: (bytes / 4) / channels }
    }
}

/// The layout of a buffer of samples of four bytes.
pub fn buffer_layout(has_data: bool, bytes: u32, channels: u32) -> (r: BufferLayout)
    ensures
        r == layout(has_data, bytes, channels),
{
    if !has_data || bytes == 0 {
        BufferLayout::Empty
    } else if channels <= 1 {
        BufferLayout::Mono { samples: bytes / 4 }
    } else {
        BufferLayout::Interleaved { channels, frames: (bytes / 4) / channels }
    }
}

/// A layout reaches no further than the buffer, and leaves less than a frame.
pub proof fn law_layout_fills_buffer(bytes: u32, channels: u32)
    ensures
        match layout(true, bytes, channels) {
            BufferLayout::Empty => bytes == 0,
            BufferLayout::Mono { samples } => 4 * samples <= bytes < 4 * samples + 4,
            BufferLayout::Interleaved { channels: c, frames } => {
                &&& c == channels
                &&& 4 * (frames * c) <= bytes
                &&& bytes < 4 * (frames * c + c)
            },
        },
{
    if bytes != 0 && channels > 1 {
        let samples = (bytes / 4) as int;
        let c = channels as int;
        assert(samples == c * (samples / c) + samples % c && 0 <= samples % c < c) by {
            vstd::arithmetic::div_mod::lemma_fundamental_div_mod(samples, c);
            vstd::arithmetic::div_mod::lemma_mod_bound(samples, c);
        }
        assert(c * (samples / c) == (samples / c) * c) by (nonlinear_arith);
    }
}

/// Whether the activity of the callback is reported on: at the first call, and
/// once in five hundred calls from then on.
pub fn reports_callback(count: u64) -> (b: bool)
    ensures
        b == (count % 500 == 1),
{
    count % 500 == 1
}

/// Whether a capture delivers silence only, which is what it does without the
/// permission to record.
pub fn delivers_silence(callbacks: u64, audible: u64) -> (b: bool)
    ensures
        b == (callbacks > 50 && audible == 0),
{
    callbacks > 50 && audible == 0
}

} // verus!
