use handy::actions::stop::TrayIconState;
use handy::settings::{find_entry, Platform};
use handy::text::{
    begins_with, contains, is_blank, parse_i32, parse_u32, replace_all, same, split_at_char,
    split_words, trim, trim_to_letters,
};
use handy::utils::{
    cancel_current_operation, finish_cancellation, is_kde_plasma, is_kde_wayland, is_wayland,
    ActiveSessions, CancelEffect, SessionEnv,
};

fn env() -> SessionEnv {
    SessionEnv {
        wayland_display: None,
        xdg_session_type: None,
        xdg_current_desktop: None,
        kde_session_version: None,
    }
}

#[test]
fn wayland_is_recognised() {
    assert!(!is_wayland(&env()));
    assert!(is_wayland(&SessionEnv { wayland_display: Some(String::new()), ..env() }));
    assert!(is_wayland(&SessionEnv { xdg_session_type: Some("Wayland".to_string()), ..env() }));
    assert!(!is_wayland(&SessionEnv { xdg_session_type: Some("x11".to_string()), ..env() }));
    assert!(!is_wayland(&SessionEnv { xdg_session_type: Some("wayland ".to_string()), ..env() }));
}

#[test]
fn kde_is_recognised() {
    assert!(!is_kde_plasma(&env()));
    assert!(is_kde_plasma(&SessionEnv { kde_session_version: Some("5".to_string()), ..env() }));
    assert!(is_kde_plasma(&SessionEnv {
        xdg_current_desktop: Some("ubuntu:kde".to_string()),
        ..env()
    }));
    assert!(!is_kde_plasma(&SessionEnv { xdg_current_desktop: Some("GNOME".to_string()), ..env() }));
    let both = SessionEnv {
        wayland_display: Some("wayland-0".to_string()),
        kde_session_version: Some("6".to_string()),
        ..env()
    };
    assert!(is_kde_wayland(&both));
    assert!(!is_kde_wayland(&SessionEnv { wayland_display: None, ..both }));
}

#[test]
fn cancelling_stops_everything_in_order() {
    let all = ActiveSessions { incremental: true, translator: true, dual_stream: true, mistral: true };
    assert_eq!(
        cancel_current_operation(all, Platform::MacApple),
        [
            CancelEffect::UnregisterCancelShortcut,
            CancelEffect::StopIncremental,
            CancelEffect::StopTranslator,
            CancelEffect::StopDualCoordinator,
            CancelEffect::StopDualCapture,
            CancelEffect::StopMistral,
            CancelEffect::StopSystemSession,
            CancelEffect::DisableStreaming,
            CancelEffect::StopSystemCapture,
        ]
    );
    assert_eq!(
        cancel_current_operation(all, Platform::Linux),
        [
            CancelEffect::UnregisterCancelShortcut,
            CancelEffect::StopIncremental,
            CancelEffect::StopTranslator,
            CancelEffect::ForgetDualStream,
            CancelEffect::StopMistral,
            CancelEffect::DisableStreaming,
            CancelEffect::StopSystemCapture,
        ]
    );
    let none =
        ActiveSessions { incremental: false, translator: false, dual_stream: false, mistral: false };
    assert_eq!(
        cancel_current_operation(none, Platform::MacApple),
        [
            CancelEffect::UnregisterCancelShortcut,
            CancelEffect::DisableStreaming,
            CancelEffect::StopSystemCapture,
        ]
    );
}

#[test]
fn cancelling_ends_idle() {
    for recording in [false, true] {
        assert_eq!(
            finish_cancellation(recording),
            [
                CancelEffect::CancelRecording,
                CancelEffect::ChangeTrayIcon(TrayIconState::Idle),
                CancelEffect::HideOverlay,
                CancelEffect::UnloadModel,
                CancelEffect::NotifyCancel(recording),
            ]
        );
    }
}

#[test]
fn the_first_entry_of_a_key_counts() {
    let entries = vec![
        ("a".to_string(), "1".to_string()),
        ("b".to_string(), "2".to_string()),
        ("b".to_string(), "3".to_string()),
    ];
    assert_eq!(find_entry(&entries, "b"), "2");
    assert_eq!(find_entry(&entries, "c"), "");
}

#[test]
fn texts_are_trimmed() {
    assert_eq!(trim("\u{3000} a b\n"), "a b");
    assert_eq!(trim(" \t"), "");
    assert_eq!(trim_to_letters("\"it's!\""), "it's");
    assert_eq!(trim_to_letters("1,2"), "");
    assert_eq!(trim_to_letters("¿é?"), "é");
    assert!(is_blank("\u{a0}\u{2003}"));
    assert!(!is_blank("\u{200B}"));
}

#[test]
fn texts_are_split() {
    assert_eq!(split_words(" a\u{3000}bc\n"), ["a", "bc"]);
    assert!(split_words(" ").is_empty());
    assert_eq!(split_at_char("a''b", '\''), ["a", "", "b"]);
    assert_eq!(split_at_char("", '.'), [""]);
}

#[test]
fn patterns_are_found_and_replaced() {
    assert_eq!(replace_all("aaa", "aa", "b"), "ba");
    assert_eq!(replace_all("x${y}${y}", "${y}", ""), "x");
    assert_eq!(replace_all("abc", "d", "e"), "abc");
    assert!(contains("xKDEx", "KDE"));
    assert!(!contains("KD", "KDE"));
    assert!(contains("", ""));
    assert!(begins_with("abc", "ab"));
    assert!(!begins_with("ab", "abc"));
    assert!(same("é", "é"));
    assert!(!same("é", "e"));
}

#[test]
fn numbers_are_parsed() {
    assert_eq!(parse_u32("4294967295"), Some(u32::MAX));
    assert_eq!(parse_u32("4294967296"), None);
    assert_eq!(parse_u32("+007"), Some(7));
    for bad in ["", "+", "-1", " 1", "1a", "٣"] {
        assert_eq!(parse_u32(bad), None);
    }
    assert_eq!(parse_i32("-2147483648"), Some(i32::MIN));
    assert_eq!(parse_i32("2147483647"), Some(i32::MAX));
    assert_eq!(parse_i32("2147483648"), None);
    assert_eq!(parse_i32("-2147483649"), None);
    for bad in ["", "-", "+-1", "--1"] {
        assert_eq!(parse_i32(bad), None);
    }
}

#[test]
fn whitespace_is_that_of_unicode() {
    let listed = |c: char| {
        matches!(
            c as u32,
            0x9..=0xD
                | 0x20
                | 0x85
                | 0xA0
                | 0x1680
                | 0x2000..=0x200A
                | 0x2028
                | 0x2029
                | 0x202F
                | 0x205F
                | 0x3000
        )
    };
    for c in '\0'..=char::MAX {
        assert_eq!(is_blank(&c.to_string()), listed(c), "{:?}", c);
    }
}

#[test]
fn ascii_has_its_letters_and_no_others() {
    for c in '\0'..='\u{7F}' {
        let letter = matches!(c, 'a'..='z' | 'A'..='Z');
        assert_eq!(trim_to_letters(&c.to_string()).is_empty(), !letter, "{:?}", c);
    }
    assert_eq!(trim_to_letters("¿été?"), "été");
}

#[test]
fn ascii_changes_case_letter_by_letter() {
    for kind in ["wayland", "WAYLAND", "wAyLaNd"] {
        let session = SessionEnv { xdg_session_type: Some(kind.to_string()), ..env() };
        assert!(is_wayland(&session));
    }
    for (desktop, is_kde) in [("kde", true), ("x:kDe", true), ("k de", false), ("+$%", false)] {
        let session = SessionEnv { xdg_current_desktop: Some(desktop.to_string()), ..env() };
        assert_eq!(is_kde_plasma(&session), is_kde);
    }
}
