//! The permission to record the system audio.

use vstd::prelude::*;

use crate::audio_toolkit::system_audio::version::{available, is_available};
use crate::settings::Platform;

verus! {

/// Nothing: a tap needs no registration before it is asked for.
pub fn prompt_screen_recording_registration() {
}

/// What the system says of the permission.
#[derive(Clone, Copy, Debug, PartialEq, Eq, Structural)]
pub enum TccStatus {
    Authorized,
    Denied,
    Undetermined,
}

/// What a result of the system's check means.
pub open spec fn status_of(code: i32) -> TccStatus {
    if code == 0 {
        TccStatus::Authorized
    } else if code == 1 {
        TccStatus::Denied
    } else {
        TccStatus::Undetermined
    }
}

/// What a result of the system's check means.
pub fn tcc_status(code: i32) -> (status: TccStatus)
    ensures
        status == status_of(code),
{
    match code {
        0 => TccStatus::Authorized,
        1 => TccStatus::Denied,
        _ => TccStatus::Undetermined,
    }
}

/// An effect of asking for the permission.
#[derive(Clone, Copy, Debug, PartialEq, Eq, Structural)]
pub enum PermissionEffect {
    DestroyTap(u32),
    /// Show the user where the permission is granted.
    OpenSettings,
}

/// A question on the way to the permission.
#[derive(Clone, Copy, Debug, PartialEq, Eq, Structural)]
pub enum PermissionAsk {
    /// What does the system's check say? `None` where the system has none.
    Preflight,
    /// Is anything but silence captured?
    Probe,
    /// Does the user grant the permission? `None` where the system cannot ask.
    Request,
    /// Create a tap, so that the system lists the application.
    CreateTap,
    /// Nothing: whether there is a permission is decided.
    Decided(bool),
}

/// A reply to a [`PermissionAsk`].
#[derive(Clone, Copy, Debug, PartialEq, Eq, Structural)]
pub enum PermissionReply {
    Preflight(Option<i32>),
    Probe(bool),
    Request(Option<bool>),
    /// The status of creating the tap, and the tap.
    TapCreated(i32, u32),
}

/// How far the decision on the permission has come.
#[derive(Clone, Copy, Debug, PartialEq, Eq, Structural)]
pub enum PermissionStage {
    Preflight { requesting: bool },
    Probe { requesting: bool },
    Request,
    CreateTap,
    Decided,
}

/// A turn of the decision: where it has come to, the effects to carry out in
/// order, and the question to answer.
pub struct PermissionNext {
    pub stage: PermissionStage,
    pub effects: Seq<PermissionEffect>,
    pub ask: PermissionAsk,
}

pub open spec fn decided(effects: Seq<PermissionEffect>, granted: bool) -> PermissionNext {
    PermissionNext {
        stage: PermissionStage::Decided,
        effects,
        ask: PermissionAsk::Decided(granted),
    }
}

/// The first turn: without a system that captures audio there is no permission.
pub open spec fn permission_begun(platform: Platform, version: Seq<char>, requesting: bool) -> PermissionNext {
    if !available(platform, version) {
        decided(Seq::empty(), false)
    } else {
        PermissionNext {
            stage: PermissionStage::Preflight { requesting },
            effects: Seq::empty(),
            ask: PermissionAsk::Preflight,
        }
    }
}

/// The check has its result. A permission that is missing can be requested.
pub open spec fn permission_checked(requesting: bool, granted: bool) -> PermissionNext {
    if granted || !requesting {
        decided(Seq::empty(), granted)
    } else {
        PermissionNext {
            stage: PermissionStage::Request,
            effects: Seq::empty(),
            ask: PermissionAsk::Request,
        }
    }
}

/// Whether a reply answers the question of a stage.
pub open spec fn permission_answers(stage: PermissionStage, reply: PermissionReply) -> bool {
    match stage {
        PermissionStage::Preflight { .. } => reply is Preflight,
        PermissionStage::Probe { .. } => reply is Probe,
        PermissionStage::Request => reply is Request,
        PermissionStage::CreateTap => reply is TapCreated,
        PermissionStage::Decided => false,
    }
}

/// The turn that follows a reply.
pub open spec fn permission_turn(stage: PermissionStage, reply: PermissionReply) -> PermissionNext {
    match (stage, reply) {
        (PermissionStage::Preflight { requesting }, PermissionReply::Preflight(code)) => match code {
            Some(code) => permission_checked(requesting, status_of(code) is Authorized),
            None => PermissionNext {
                stage: PermissionStage::Probe { requesting },
                effects: Seq::empty(),
                ask: PermissionAsk::Probe,
            },
        },
        (PermissionStage::Probe { requesting }, PermissionReply::Probe(audible)) => {
            permission_checked(requesting, audible)
        },
        (PermissionStage::Request, PermissionReply::Request(granted)) => if granted == Some(true) {
            decided(Seq::empty(), true)
        } else {
            PermissionNext {
                stage: PermissionStage::CreateTap,
                effects: Seq::empty(),
                ask: PermissionAsk::CreateTap,
            }
        },
        (PermissionStage::CreateTap, PermissionReply::TapCreated(status, tap)) => decided(
            if status == 0 {
                seq![PermissionEffect::DestroyTap(tap), PermissionEffect::OpenSettings]
            } else {
                seq![PermissionEffect::OpenSettings]
            },
            false,
        ),
        _ => decided(Seq::empty(), false),
    }
}

/// A turn of the decision: the effects to carry out in order, then the question
/// to answer.
pub struct PermissionTurn {
    pub effects: Vec<PermissionEffect>,
    pub ask: PermissionAsk,
}

/// Decides whether there is a permission to record the system audio.
pub struct PermissionCheck {
    stage: PermissionStage,
}

impl View for PermissionCheck {
    type V = PermissionStage;

    closed spec fn view(&self) -> PermissionStage {
        self.stage
    }
}

impl PermissionTurn {
    /// This turn, together with where it has come to.
    pub open spec fn leading_to(self, stage: PermissionStage) -> PermissionNext {
        PermissionNext { stage, effects: self.effects@, ask: self.ask }
    }
}

fn begin(platform: Platform, version: &str, requesting: bool) -> (r: (
    PermissionCheck,
    PermissionTurn,
))
    ensures
        r.1.leading_to(r.0@) == permission_begun(platform, version@, requesting),
{
    if is_available(platform, version) {
        (
            PermissionCheck { stage: PermissionStage::Preflight { requesting } },
            PermissionTurn { effects: Vec::new(), ask: PermissionAsk::Preflight },
        )
    } else {
        (
            PermissionCheck { stage: PermissionStage::Decided },
            PermissionTurn { effects: Vec::new(), ask: PermissionAsk::Decided(false) },
        )
    }
}

/// Starts to find out whether the permission is granted: by the system's own
/// check, or, where there is none, by listening for anything but silence.
pub fn check_permission(platform: Platform, version: &str) -> (r: (PermissionCheck, PermissionTurn))
    ensures
        r.1.leading_to(r.0@) == permission_begun(platform, version@, false),
{
    begin(platform, version, false)
}

/// Starts to get the permission: where it is not granted yet, the user is
/// asked; if that fails, they are shown where it is granted.
pub fn request_permission(platform: Platform, version: &str) -> (r: (
    PermissionCheck,
    PermissionTurn,
))
    ensures
        r.1.leading_to(r.0@) == permission_begun(platform, version@, true),
{
    begin(platform, version, true)
}

impl PermissionCheck {
    fn go_on(&mut self, stage: PermissionStage, ask: PermissionAsk) -> (turn: PermissionTurn)
        ensures
            turn.leading_to(final(self)@) == (PermissionNext { stage, effects: Seq::empty(), ask }),
    {
        self.stage = stage;
        PermissionTurn { effects: Vec::new(), ask }
    }

    fn decide(&mut self, granted: bool) -> (turn: PermissionTurn)
        ensures
            turn.leading_to(final(self)@) == decided(Seq::empty(), granted),
    {
        self.go_on(PermissionStage::Decided, PermissionAsk::Decided(granted))
    }

    fn checked(&mut self, requesting: bool, granted: bool) -> (turn: PermissionTurn)
        ensures
            turn.leading_to(final(self)@) == permission_checked(requesting, granted),
    {
        if granted || !requesting {
            self.decide(granted)
        } else {
            self.go_on(PermissionStage::Request, PermissionAsk::Request)
        }
    }

    /// Goes on with the decision.
    pub fn step(&mut self, reply: PermissionReply) -> (turn: PermissionTurn)
        requires
            permission_answers(old(self)@, reply),
        ensures
            turn.leading_to(final(self)@) == permission_turn(old(self)@, reply),
    {
        match (self.stage, reply) {
            (PermissionStage::Preflight { requesting }, PermissionReply::Preflight(code)) => {
                match code {
                    Some(code) => {
                        let granted = match tcc_status(code) {
                            TccStatus::Authorized => true,
                            _ => false,
                        };
                        self.checked(requesting, granted)
                    },
                    None => self.go_on(
                        PermissionStage::Probe { requesting },
                        PermissionAsk::Probe,
                    ),
                }
            },
            (PermissionStage::Probe { requesting }, PermissionReply::Probe(audible)) => {
                self.checked(requesting, audible)
            },
            (PermissionStage::Request, PermissionReply::Request(granted)) => {
                let granted = match granted {
                    Some(granted) => granted,
                    None => false,
                };
                if granted {
                    self.decide(true)
                } else {
                    self.go_on(PermissionStage::CreateTap, PermissionAsk::CreateTap)
                }
            },
            (PermissionStage::CreateTap, PermissionReply::TapCreated(status, tap)) => {
                self.stage = PermissionStage::Decided;
                let mut effects: Vec<PermissionEffect> = Vec::new();
                if status == 0 {
                    effects.push(PermissionEffect::DestroyTap(tap));
                }
                effects.push(PermissionEffect::OpenSettings);
                proof {
                    assert(effects@ =~= if status == 0 {
                        seq![PermissionEffect::DestroyTap(tap), PermissionEffect::OpenSettings]
                    } else {
                        seq![PermissionEffect::OpenSettings]
                    });
                }
                PermissionTurn { effects, ask: PermissionAsk::Decided(false) }
            },
            _ => self.decide(false),
        }
    }
}

/// What is heard of a capture that is listened to.
#[derive(Clone, Copy, Debug, PartialEq, Eq, Structural)]
pub enum ProbeEvent {
    /// Some samples; whether one of them is not silent.
    Samples(bool),
    Timeout,
    Disconnected,
}

/// For how long a capture is listened to.
pub const PROBE_MS: u64 = 500;

/// For how long each part of it is waited for.
pub const PROBE_WAIT_MS: u64 = 50;

/// The verdict once something was heard in time, `None` while there is none.
pub open spec fn verdict_on(event: ProbeEvent) -> Option<bool> {
    match event {
        ProbeEvent::Samples(audible) => if audible {
            Some(true)
        } else {
            None
        },
        ProbeEvent::Timeout => None,
        ProbeEvent::Disconnected => Some(false),
    }
}

/// The verdict on what was heard, each part with the time at which it would
/// have to be waited for: `None` while there is none yet.
pub open spec fn probe_verdict(heard: Seq<(u64, ProbeEvent)>) -> Option<bool>
    decreases heard.len(),
{
    if heard.len() == 0 {
        None
    } else if heard[0].0 >= PROBE_MS {
        Some(false)
    } else {
        match verdict_on(heard[0].1) {
            Some(verdict) => Some(verdict),
            None => probe_verdict(heard.drop_first()),
        }
    }
}

/// Whether it is still time to wait for more, so long after the beginning.
pub fn keeps_listening(elapsed_ms: u64) -> (b: bool)
    ensures
        b == (elapsed_ms < PROBE_MS),
{
    elapsed_ms < PROBE_MS
}

/// The verdict on one part, with the time at which it would have to be waited
/// for.
pub open spec fn part_verdict(elapsed_ms: u64, event: ProbeEvent) -> Option<bool> {
    if elapsed_ms >= PROBE_MS {
        Some(false)
    } else {
        verdict_on(event)
    }
}

/// A turn of the probe: the verdict, or `None` to go on listening.
pub fn probe_turn(elapsed_ms: u64, event: ProbeEvent) -> (r: Option<bool>)
    ensures
        r == part_verdict(elapsed_ms, event),
{
    if elapsed_ms >= PROBE_MS {
        return Some(false);
    }
    match event {
        ProbeEvent::Samples(true) => Some(true),
        ProbeEvent::Samples(false) => None,
        ProbeEvent::Timeout => None,
        ProbeEvent::Disconnected => Some(false),
    }
}

/// Turn by turn, the first verdict is the one on all that was heard; while no
/// turn has one, there is none.
pub proof fn law_probe_decides_at_its_first_verdict(heard: Seq<(u64, ProbeEvent)>, n: int)
    requires
        0 <= n <= heard.len(),
        forall|i: int|
            0 <= i < n ==> part_verdict((#[trigger] heard[i]).0, heard[i].1) is None,
    ensures
        n == heard.len() ==> probe_verdict(heard) is None,
        n < heard.len() && part_verdict(heard[n].0, heard[n].1) is Some ==> probe_verdict(heard)
            == part_verdict(heard[n].0, heard[n].1),
    decreases n,
{
    if n > 0 {
        let rest = heard.drop_first();
        assert forall|i: int| 0 <= i < n - 1 implies part_verdict(
            (#[trigger] rest[i]).0,
            rest[i].1,
        ) is None by {
            assert(rest[i] == heard[i + 1]);
        }
        law_probe_decides_at_its_first_verdict(rest, n - 1);
        assert(part_verdict(heard[0].0, heard[0].1) is None);
        if n < heard.len() {
            assert(rest[n - 1] == heard[n]);
        }
    }
}

/// Something audible came at place `i`, in time and before the capture ended.
pub open spec fn audible_at(heard: Seq<(u64, ProbeEvent)>, i: int) -> bool {
    &&& 0 <= i < heard.len()
    &&& heard[i].1 == ProbeEvent::Samples(true)
    &&& heard[i].0 < PROBE_MS
    &&& forall|k: int|
        0 <= k < i ==> (#[trigger] heard[k]).0 < PROBE_MS && !(heard[k].1 is Disconnected)
}

/// The probe finds a permission exactly if something audible comes in time and
/// before the capture ends.
pub proof fn law_probe_finds_audio(heard: Seq<(u64, ProbeEvent)>)
    ensures
        probe_verdict(heard) == Some(true) <==> exists|i: int| audible_at(heard, i),
    decreases heard.len(),
{
    if heard.len() > 0 {
        let rest = heard.drop_first();
        law_probe_finds_audio(rest);
        if probe_verdict(heard) == Some(true) {
            if heard[0].1 == ProbeEvent::Samples(true) {
                assert(audible_at(heard, 0));
            } else {
                let i = choose|i: int| audible_at(rest, i);
                assert forall|k: int| 0 <= k < i + 1 implies (#[trigger] heard[k]).0 < PROBE_MS
                    && !(heard[k].1 is Disconnected) by {
                    if k > 0 {
                        assert(rest[k - 1] == heard[k]);
                    }
                }
                assert(audible_at(heard, i + 1));
            }
        }
        if exists|i: int| audible_at(heard, i) {
            let i = choose|i: int| audible_at(heard, i);
            if i > 0 && heard[0].1 != ProbeEvent::Samples(true) {
                assert(heard[0].0 < PROBE_MS);
                assert forall|k: int| 0 <= k < i - 1 implies (#[trigger] rest[k]).0 < PROBE_MS && !(
                rest[k].1 is Disconnected) by {
                    assert(rest[k] == heard[k + 1]);
                }
                assert(audible_at(rest, i - 1));
            }
        }
    }
}

/// A check asks the user nothing, and the user is asked only where the check
/// has found no permission.
pub proof fn law_check_does_not_prompt(stage: PermissionStage, reply: PermissionReply)
    requires
        permission_answers(stage, reply),
    ensures
        permission_turn(stage, reply).ask is Request ==> stage is Preflight || stage is Probe,
        stage == (PermissionStage::Preflight { requesting: false }) || stage == (
        PermissionStage::Probe { requesting: false }) ==> {
            let next = permission_turn(stage, reply);
            &&& next.ask is Decided || next.ask is Probe
            &&& next.effects.len() == 0
            &&& next.ask is Probe ==> next.stage == (PermissionStage::Probe { requesting: false })
        },
        stage == (PermissionStage::Preflight { requesting: true }) && reply
            == PermissionReply::Preflight(Some(0)) ==> permission_turn(stage, reply).ask
            == PermissionAsk::Decided(true),
{
}

/// Asking for the permission leaves no tap behind.
pub proof fn law_request_leaves_no_tap(status: i32, tap: u32)
    ensures
        status == 0 ==> permission_turn(
            PermissionStage::CreateTap,
            PermissionReply::TapCreated(status, tap),
        ).effects.contains(PermissionEffect::DestroyTap(tap)),
        status != 0 ==> forall|other: u32|
            !#[trigger] permission_turn(
                PermissionStage::CreateTap,
                PermissionReply::TapCreated(status, tap),
            ).effects.contains(PermissionEffect::DestroyTap(other)),
{
    let effects = permission_turn(
        PermissionStage::CreateTap,
        PermissionReply::TapCreated(status, tap),
    ).effects;
    if status == 0 {
        assert(effects[0] == PermissionEffect::DestroyTap(tap));
    }
}

} // verus!
