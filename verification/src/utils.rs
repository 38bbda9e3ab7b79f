//! Cancelling whatever is under way, and questions about the desktop session.

use vstd::prelude::*;

use crate::actions::stop::TrayIconState;
use crate::settings::Platform;
use crate::text::{contains, occurs, same, unicode_lowercase, unicode_uppercase};

verus! {

/// The environment variables that tell desktop sessions apart. A variable that
/// is not set, or does not hold Unicode text, is `None`.
pub struct SessionEnv {
    pub wayland_display: Option<String>,
    pub xdg_session_type: Option<String>,
    pub xdg_current_desktop: Option<String>,
    pub kde_session_version: Option<String>,
}

/// The session speaks the Wayland protocol.
pub open spec fn wayland(env: SessionEnv) -> bool {
    env.wayland_display is Some || (env.xdg_session_type matches Some(kind) && unicode_lowercase(
        kind@,
    ) == "wayland"@)
}

/// The session runs KDE Plasma.
pub open spec fn kde_plasma(env: SessionEnv) -> bool {
    env.kde_session_version is Some || (env.xdg_current_desktop matches Some(desktop) && occurs(
        unicode_uppercase(desktop@),
        "KDE"@,
    ))
}

/// Whether the session uses the Wayland display server protocol.
pub fn is_wayland(env: &SessionEnv) -> (b: bool)
    ensures
        b == wayland(*env),
{
    if env.wayland_display.is_some() {
        return true;
    }
    match &env.xdg_session_type {
        Some(kind) => same(kind.as_str().to_lowercase().as_str(), "wayland"),
        None => false,
    }
}

/// Whether the session runs the KDE Plasma desktop environment.
pub fn is_kde_plasma(env: &SessionEnv) -> (b: bool)
    ensures
        b == kde_plasma(*env),
{
    let named = match &env.xdg_current_desktop {
        Some(desktop) => contains(desktop.as_str().to_uppercase().as_str(), "KDE"),
        None => false,
    };
    named || env.kde_session_version.is_some()
}

/// Whether the session runs KDE Plasma with Wayland.
pub fn is_kde_wayland(env: &SessionEnv) -> (b: bool)
    ensures
        b == (wayland(*env) && kde_plasma(*env)),
{
    is_wayland(env) && is_kde_plasma(env)
}

/// What is under way besides a recording.
#[derive(Clone, Copy, Debug, PartialEq, Eq, Structural)]
pub struct ActiveSessions {
    pub incremental: bool,
    pub translator: bool,
    /// The microphone and the system audio are transcribed side by side.
    pub dual_stream: bool,
    pub mistral: bool,
}

/// An effect of cancelling.
#[derive(Clone, Copy, Debug, PartialEq, Eq, Structural)]
pub enum CancelEffect {
    UnregisterCancelShortcut,
    StopIncremental,
    StopTranslator,
    StopDualCoordinator,
    StopDualCapture,
    /// Forget the dual stream where it has no parts to stop.
    ForgetDualStream,
    StopMistral,
    /// Stop the session that transcribes the system audio.
    StopSystemSession,
    DisableStreaming,
    StopSystemCapture,
    CancelRecording,
    ChangeTrayIcon(TrayIconState),
    HideOverlay,
    UnloadModel,
    /// Tell the coordinator, and whether there was a recording.
    NotifyCancel(bool),
}

/// The effect, if it is called for.
pub open spec fn cancel_if(condition: bool, effect: CancelEffect) -> Seq<CancelEffect> {
    if condition {
        seq![effect]
    } else {
        Seq::empty()
    }
}

/// The first part of cancelling: every session is stopped, and what feeds the
/// recorder with them.
pub open spec fn cancel_sessions(active: ActiveSessions, platform: Platform) -> Seq<CancelEffect> {
    let dual = active.dual_stream && platform.mac();
    seq![CancelEffect::UnregisterCancelShortcut]
        + cancel_if(active.incremental, CancelEffect::StopIncremental)
        + cancel_if(active.translator, CancelEffect::StopTranslator)
        + cancel_if(dual, CancelEffect::StopDualCoordinator)
        + cancel_if(dual, CancelEffect::StopDualCapture)
        + cancel_if(active.dual_stream && !platform.mac(), CancelEffect::ForgetDualStream)
        + cancel_if(active.mistral, CancelEffect::StopMistral)
        + cancel_if(dual, CancelEffect::StopSystemSession)
        + seq![CancelEffect::DisableStreaming, CancelEffect::StopSystemCapture]
}

/// The second part of cancelling, once it is known whether there is a
/// recording.
pub open spec fn cancel_rest(recording: bool) -> Seq<CancelEffect> {
    seq![
        CancelEffect::CancelRecording,
        CancelEffect::ChangeTrayIcon(TrayIconState::Idle),
        CancelEffect::HideOverlay,
        CancelEffect::UnloadModel,
        CancelEffect::NotifyCancel(recording),
    ]
}

/// Starts to cancel whatever is under way. The effects are carried out in
/// order; then comes [`finish_cancellation`].
pub fn cancel_current_operation(active: ActiveSessions, platform: Platform) -> (effects: Vec<
    CancelEffect,
>)
    ensures
        effects@ == cancel_sessions(active, platform),
{
    let mac = platform.is_mac();
    let mut effects: Vec<CancelEffect> = Vec::new();
    effects.push(CancelEffect::UnregisterCancelShortcut);
    if active.incremental {
        effects.push(CancelEffect::StopIncremental);
    }
    if active.translator {
        effects.push(CancelEffect::StopTranslator);
    }
    if active.dual_stream {
        if mac {
            effects.push(CancelEffect::StopDualCoordinator);
            effects.push(CancelEffect::StopDualCapture);
        } else {
            effects.push(CancelEffect::ForgetDualStream);
        }
    }
    if active.mistral {
        effects.push(CancelEffect::StopMistral);
    }
    if active.dual_stream && mac {
        effects.push(CancelEffect::StopSystemSession);
    }
    effects.push(CancelEffect::DisableStreaming);
    effects.push(CancelEffect::StopSystemCapture);
    effects
}

/// Goes on to cancel the recording, if there is one, and returns to idle.
pub fn finish_cancellation(recording: bool) -> (effects: Vec<CancelEffect>)
    ensures
        effects@ == cancel_rest(recording),
{
    let mut effects: Vec<CancelEffect> = Vec::new();
    effects.push(CancelEffect::CancelRecording);
    effects.push(CancelEffect::ChangeTrayIcon(TrayIconState::Idle));
    effects.push(CancelEffect::HideOverlay);
    effects.push(CancelEffect::UnloadModel);
    effects.push(CancelEffect::NotifyCancel(recording));
    effects
}

proof fn lemma_cancel_if_contains(condition: bool, effect: CancelEffect, other: CancelEffect)
    ensures
        cancel_if(condition, effect).contains(other) <==> condition && effect == other,
{
    if condition {
        assert(cancel_if(condition, effect)[0] == effect);
    }
}

proof fn lemma_contains_two(a: Seq<CancelEffect>, b: Seq<CancelEffect>, effect: CancelEffect)
    ensures
        (a + b).contains(effect) <==> a.contains(effect) || b.contains(effect),
{
    if a.contains(effect) {
        let i = choose|i: int| 0 <= i < a.len() && a[i] == effect;
        assert((a + b)[i] == effect);
    }
    if b.contains(effect) {
        let i = choose|i: int| 0 <= i < b.len() && b[i] == effect;
        assert((a + b)[a.len() + i] == effect);
    }
    if (a + b).contains(effect) {
        let i = choose|i: int| 0 <= i < (a + b).len() && (a + b)[i] == effect;
        if i < a.len() {
            assert(a[i] == effect);
        } else {
            assert(b[i - a.len()] == effect);
        }
    }
}

/// Cancelling stops exactly the sessions that are under way.
pub proof fn law_cancelling_stops_what_is_active(
    active: ActiveSessions,
    platform: Platform,
    effect: CancelEffect,
)
    ensures
        cancel_sessions(active, platform).contains(effect) <==> match effect {
            CancelEffect::UnregisterCancelShortcut => true,
            CancelEffect::StopIncremental => active.incremental,
            CancelEffect::StopTranslator => active.translator,
            CancelEffect::StopDualCoordinator => active.dual_stream && platform.mac(),
            CancelEffect::StopDualCapture => active.dual_stream && platform.mac(),
            CancelEffect::ForgetDualStream => active.dual_stream && !platform.mac(),
            CancelEffect::StopMistral => active.mistral,
            CancelEffect::StopSystemSession => active.dual_stream && platform.mac(),
            CancelEffect::DisableStreaming => true,
            CancelEffect::StopSystemCapture => true,
            _ => false,
        },
{
    let dual = active.dual_stream && platform.mac();
    let s0 = seq![CancelEffect::UnregisterCancelShortcut];
    let c1 = cancel_if(active.incremental, CancelEffect::StopIncremental);
    let c2 = cancel_if(active.translator, CancelEffect::StopTranslator);
    let c3 = cancel_if(dual, CancelEffect::StopDualCoordinator);
    let c4 = cancel_if(dual, CancelEffect::StopDualCapture);
    let c5 = cancel_if(active.dual_stream && !platform.mac(), CancelEffect::ForgetDualStream);
    let c6 = cancel_if(active.mistral, CancelEffect::StopMistral);
    let c7 = cancel_if(dual, CancelEffect::StopSystemSession);
    let end = seq![CancelEffect::DisableStreaming, CancelEffect::StopSystemCapture];
    lemma_contains_two(s0 + c1 + c2 + c3 + c4 + c5 + c6 + c7, end, effect);
    lemma_contains_two(s0 + c1 + c2 + c3 + c4 + c5 + c6, c7, effect);
    lemma_contains_two(s0 + c1 + c2 + c3 + c4 + c5, c6, effect);
    lemma_contains_two(s0 + c1 + c2 + c3 + c4, c5, effect);
    lemma_contains_two(s0 + c1 + c2 + c3, c4, effect);
    lemma_contains_two(s0 + c1 + c2, c3, effect);
    lemma_contains_two(s0 + c1, c2, effect);
    lemma_contains_two(s0, c1, effect);
    lemma_cancel_if_contains(active.incremental, CancelEffect::StopIncremental, effect);
    lemma_cancel_if_contains(active.translator, CancelEffect::StopTranslator, effect);
    lemma_cancel_if_contains(dual, CancelEffect::StopDualCoordinator, effect);
    lemma_cancel_if_contains(dual, CancelEffect::StopDualCapture, effect);
    lemma_cancel_if_contains(
        active.dual_stream && !platform.mac(),
        CancelEffect::ForgetDualStream,
        effect,
    );
    lemma_cancel_if_contains(active.mistral, CancelEffect::StopMistral, effect);
    lemma_cancel_if_contains(dual, CancelEffect::StopSystemSession, effect);
    assert(s0[0] == CancelEffect::UnregisterCancelShortcut);
    assert(end[0] == CancelEffect::DisableStreaming);
    assert(end[1] == CancelEffect::StopSystemCapture);
}

/// Cancelling ends idle: all sessions and the capture are stopped before the
/// recording is cancelled, and after it the icon is idle, the overlay hidden and
/// the coordinator told.
pub proof fn law_cancelling_returns_to_idle(
    active: ActiveSessions,
    platform: Platform,
    recording: bool,
)
    ensures
        ({
            let first = cancel_sessions(active, platform);
            let all = first + cancel_rest(recording);
            &&& all[first.len() - 1] == CancelEffect::StopSystemCapture
            &&& all[first.len() as int] == CancelEffect::CancelRecording
            &&& !first.contains(CancelEffect::CancelRecording)
            &&& all.contains(CancelEffect::ChangeTrayIcon(TrayIconState::Idle))
            &&& all.contains(CancelEffect::HideOverlay)
            &&& all.last() == CancelEffect::NotifyCancel(recording)
        }),
{
    let first = cancel_sessions(active, platform);
    let rest = cancel_rest(recording);
    law_cancelling_stops_what_is_active(active, platform, CancelEffect::CancelRecording);
    assert(rest[1] == CancelEffect::ChangeTrayIcon(TrayIconState::Idle));
    assert(rest[2] == CancelEffect::HideOverlay);
    assert((first + rest)[(first.len() + 1) as int] == rest[1]);
    assert((first + rest)[(first.len() + 2) as int] == rest[2]);
}

/// The place of an effect in the order of cancelling.
pub open spec fn cancel_rank(effect: CancelEffect) -> int {
    match effect {
        CancelEffect::UnregisterCancelShortcut => 0,
        CancelEffect::StopIncremental => 1,
        CancelEffect::StopTranslator => 2,
        CancelEffect::StopDualCoordinator => 3,
        CancelEffect::StopDualCapture => 4,
        CancelEffect::ForgetDualStream => 5,
        CancelEffect::StopMistral => 6,
        CancelEffect::StopSystemSession => 7,
        CancelEffect::DisableStreaming => 8,
        CancelEffect::StopSystemCapture => 9,
        CancelEffect::CancelRecording => 10,
        CancelEffect::ChangeTrayIcon(_) => 11,
        CancelEffect::HideOverlay => 12,
        CancelEffect::UnloadModel => 13,
        CancelEffect::NotifyCancel(_) => 14,
    }
}

/// Cancelling keeps an order, and does nothing twice: first the shortcut goes,
/// then the sessions are stopped, what the user sees before what runs in the
/// background, then the streaming and the capture end, then the recording, and
/// only then the icon and the overlay change, the model is unloaded and the
/// coordinator told.
pub proof fn law_cancelling_keeps_its_order(
    active: ActiveSessions,
    platform: Platform,
    recording: bool,
)
    ensures
        ({
            let all = cancel_sessions(active, platform) + cancel_rest(recording);
            forall|i: int, j: int|
                0 <= i < j < all.len() ==> cancel_rank(#[trigger] all[i]) < cancel_rank(
                    #[trigger] all[j],
                )
        }),
        cancel_rest(recording).len() == 5,
        forall|effect: CancelEffect| #[trigger]
            cancel_rest(recording).contains(effect) <==> {
                ||| effect == CancelEffect::CancelRecording
                ||| effect == CancelEffect::ChangeTrayIcon(TrayIconState::Idle)
                ||| effect == CancelEffect::HideOverlay
                ||| effect == CancelEffect::UnloadModel
                ||| effect == CancelEffect::NotifyCancel(recording)
            },
{
    let rest = cancel_rest(recording);
    assert(rest[0] == CancelEffect::CancelRecording);
    assert(rest[1] == CancelEffect::ChangeTrayIcon(TrayIconState::Idle));
    assert(rest[2] == CancelEffect::HideOverlay);
    assert(rest[3] == CancelEffect::UnloadModel);
    assert(rest[4] == CancelEffect::NotifyCancel(recording));
}

/// A session is one of Wayland if it has a Wayland display, or says so in letters
/// of whatever case, and it runs KDE Plasma if KDE tells its version, or is named
/// anywhere among the desktops in letters of whatever case. Nothing else counts.
pub proof fn law_what_tells_sessions_apart(env: SessionEnv)
    ensures
        env.wayland_display is Some ==> wayland(env),
        env.wayland_display is None && env.xdg_session_type is None ==> !wayland(env),
        env.wayland_display is None ==> (env.xdg_session_type matches Some(kind) ==> wayland(env)
            == (unicode_lowercase(kind@) == "wayland"@)),
        env.kde_session_version is Some ==> kde_plasma(env),
        env.kde_session_version is None && env.xdg_current_desktop is None ==> !kde_plasma(env),
        env.kde_session_version is None ==> (env.xdg_current_desktop matches Some(desktop)
            ==> kde_plasma(env) == occurs(unicode_uppercase(desktop@), "KDE"@)),
{
}

} // verus!
