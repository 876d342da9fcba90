use glowkey::windows::about::{build_string, WindowSlot};
use glowkey::windows::elevation::{foreground_reach, Reach};
use glowkey::windows::hook_log::HookLog;
use glowkey::windows::mouse::{
    is_button_down, should_flush, WM_LBUTTONDOWN, WM_LBUTTONUP, WM_MBUTTONDOWN, WM_MOUSEMOVE,
    WM_MOUSEWHEEL, WM_NCLBUTTONDOWN, WM_NCMBUTTONDOWN, WM_NCRBUTTONDOWN, WM_RBUTTONDOWN,
    WM_RBUTTONUP,
};
use glowkey::windows::omnibox::{OmniboxFocus, OMNIBOX_CLASS};
use glowkey::windows::startup::{launch_command, wide};
use glowkey::windows::theme::{apps_are_light, light_theme_value, taskbar_is_light};

const MEDIUM: u32 = 0x2000;
const HIGH: u32 = 0x3000;

#[test]
fn only_a_strictly_higher_level_blocks() {
    let medium = MEDIUM;
    let high = HIGH;
    assert!(high > medium, "an elevated window is above an ordinary one");
    assert!(!(medium > medium), "an equal level is reachable");
    assert!(!(medium > high), "we do not block on being more privileged");
    assert_eq!(foreground_reach(Some(medium), Some(high)), Reach::BlockedByElevation);
    assert_eq!(foreground_reach(Some(medium), Some(medium)), Reach::Reachable);
    assert_eq!(foreground_reach(Some(high), Some(medium)), Reach::Reachable);
}

#[test]
fn a_level_between_the_named_ones_is_not_equal() {
    assert_eq!(foreground_reach(Some(MEDIUM), Some(0x2100)), Reach::BlockedByElevation);
}

#[test]
fn an_unreadable_level_is_unknown_not_reachable() {
    assert_eq!(foreground_reach(None, Some(MEDIUM)), Reach::Unknown);
    assert_eq!(foreground_reach(Some(MEDIUM), None), Reach::Unknown);
}

#[test]
fn logging_before_start_is_a_no_op() {
    let mut log = HookLog::new();
    log.log("a line with no writer behind it".into());
    assert!(log.drain().is_empty());
}

#[test]
fn a_full_queue_drops_instead_of_blocking() {
    let mut log = HookLog::new();
    log.start(1);
    assert!(log.try_send("first".into()).is_ok());
    assert!(log.try_send("second".into()).is_err());
}

#[test]
fn dropped_lines_are_counted_on_the_next_line_through() {
    let mut log = HookLog::new();
    log.start(1);
    log.log("one".into());
    log.log("two".into());
    log.log("three".into());
    assert_eq!(log.drain(), vec!["one".to_string()]);
    log.log("four".into());
    assert_eq!(
        log.drain(),
        vec!["[2 log lines dropped — the writer fell behind] four".to_string()]
    );
    log.log("five".into());
    assert_eq!(log.drain(), vec!["five".to_string()]);
}

#[test]
fn a_focus_change_fails_safe() {
    let mut focus = OmniboxFocus::new();
    focus.resolved(Some("OmniboxViewViews"));
    assert!(focus.focus_is_omnibox());
    focus.note_focus_changed();
    assert!(
        !focus.focus_is_omnibox(),
        "a focus change must clear the flag before the worker re-resolves it"
    );
}

#[test]
fn the_omnibox_class_is_the_chromium_view_name() {
    assert_eq!(OMNIBOX_CLASS, "OmniboxViewViews");
}

#[test]
fn only_the_omnibox_class_sets_the_flag() {
    let mut focus = OmniboxFocus::new();
    focus.resolved(Some("TermControl"));
    assert!(!focus.focus_is_omnibox());
    focus.resolved(None);
    assert!(!focus.focus_is_omnibox());
}

#[test]
fn wide_strings_are_nul_terminated() {
    let w = wide("GlowKey");
    assert_eq!(w.last(), Some(&0), "a W entry point reads until the NUL");
    assert_eq!(w.len(), "GlowKey".len() + 1);
}

#[test]
fn the_launch_command_is_quoted() {
    let command = launch_command(Some(r"C:\Program Files\GlowKey\glowkey.exe")).expect("a path");
    assert!(command.starts_with('"') && command.ends_with('"'));
    assert!(command.len() > 2);
    assert_eq!(command, "\"C:\\Program Files\\GlowKey\\glowkey.exe\"");
    assert_eq!(launch_command(None), None);
}

#[test]
fn the_theme_reads_are_stable() {
    assert_eq!(taskbar_is_light(Some(0)), taskbar_is_light(Some(0)));
    assert_eq!(apps_are_light(Some(1)), apps_are_light(Some(1)));
    assert_eq!(taskbar_is_light(None), taskbar_is_light(None));
    assert_eq!(apps_are_light(None), apps_are_light(None));
}

#[test]
fn an_absent_value_reads_as_light() {
    assert!(light_theme_value(None), "an unreadable theme flag must fall back to light");
    assert!(taskbar_is_light(Some(1)));
    assert!(!apps_are_light(Some(0)));
}

#[test]
fn the_build_string_names_the_crate_version() {
    assert!(build_string("0.1.0", None).starts_with("0.1.0"));
    assert_eq!(build_string("0.1.0", Some("44a38fa")), "0.1.0 (44a38fa)");
    assert_eq!(build_string("0.1.0", Some("")), "0.1.0");
}

#[test]
fn the_about_window_is_built_once_until_invalidated() {
    let mut slot = WindowSlot::new();
    assert!(slot.show());
    assert!(!slot.show());
    assert!(slot.invalidate());
    assert!(!slot.invalidate());
    assert!(slot.show());
}

#[test]
fn every_button_press_flushes() {
    for message in [
        WM_LBUTTONDOWN,
        WM_RBUTTONDOWN,
        WM_MBUTTONDOWN,
        WM_NCLBUTTONDOWN,
        WM_NCRBUTTONDOWN,
        WM_NCMBUTTONDOWN,
    ] {
        assert!(is_button_down(message), "{message:#x} must flush");
    }
}

#[test]
fn movement_and_the_wheel_do_not_flush() {
    for message in [WM_MOUSEMOVE, WM_MOUSEWHEEL] {
        assert!(!is_button_down(message));
    }
}

#[test]
fn button_release_does_not_flush_again() {
    for message in [WM_LBUTTONUP, WM_RBUTTONUP] {
        assert!(!is_button_down(message));
    }
    assert!(!should_flush(1, WM_LBUTTONDOWN), "a non-action code is passed on untouched");
    assert!(should_flush(0, WM_LBUTTONDOWN));
}
