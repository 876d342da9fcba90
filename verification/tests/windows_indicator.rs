use glowkey::settings::InputMode;
use glowkey::windows::elevation::Reach;
use glowkey::windows::indicator::{state, Breakage, Indicator};

#[test]
fn a_dead_hook_reports_broken_whatever_else_is_true() {
    for mode in [InputMode::Vietnamese, InputMode::English] {
        for excluded in [true, false] {
            assert_eq!(
                state(false, Reach::Reachable, mode, excluded),
                Indicator::Broken(Breakage::HookGone),
                "a dead hook must not be hidden by mode={mode:?} excluded={excluded}"
            );
        }
    }
}

#[test]
fn english_does_not_mask_a_dead_hook() {
    assert_eq!(
        state(false, Reach::Reachable, InputMode::English, false),
        Indicator::Broken(Breakage::HookGone)
    );
}

#[test]
fn an_elevated_window_reports_broken() {
    assert_eq!(
        state(true, Reach::BlockedByElevation, InputMode::Vietnamese, false),
        Indicator::Broken(Breakage::ElevatedWindow)
    );
}

#[test]
fn the_dead_hook_outranks_the_elevated_window() {
    assert_eq!(
        state(false, Reach::BlockedByElevation, InputMode::Vietnamese, false),
        Indicator::Broken(Breakage::HookGone)
    );
}

#[test]
fn an_unexaminable_window_is_not_reported_as_broken() {
    assert_eq!(state(true, Reach::Unknown, InputMode::Vietnamese, false), Indicator::Vietnamese);
}

#[test]
fn excluded_is_not_english() {
    let excluded = state(true, Reach::Reachable, InputMode::Vietnamese, true);
    let english = state(true, Reach::Reachable, InputMode::English, false);
    assert_eq!(excluded, Indicator::ExcludedApp);
    assert_eq!(english, Indicator::English);
    assert_ne!(excluded, english);
    assert_eq!(excluded.glyph(), "VI");
    assert!(excluded.dimmed());
    assert!(!state(true, Reach::Reachable, InputMode::Vietnamese, false).dimmed());
}

#[test]
fn the_two_breakages_say_different_things() {
    let hook = Indicator::Broken(Breakage::HookGone).describe(Some("notepad.exe"));
    let uipi = Indicator::Broken(Breakage::ElevatedWindow).describe(Some("taskmgr.exe"));
    assert_ne!(hook, uipi);
    assert!(uipi.contains("taskmgr.exe"), "name the offending window");
    assert!(hook.contains("reinstall"), "a dead hook has a remedy and must offer it");
}

#[test]
fn a_working_glowkey_reports_no_problem() {
    for indicator in [Indicator::Vietnamese, Indicator::ExcludedApp, Indicator::English] {
        let described = indicator.describe(Some("notepad.exe"));
        assert!(!described.contains("NOT RUNNING"));
        assert!(!described.contains("cannot type"));
    }
}

#[test]
fn each_state_has_its_glyph_and_line() {
    assert_eq!(Indicator::English.glyph(), "EN");
    assert_eq!(Indicator::Broken(Breakage::HookGone).glyph(), "⚠");
    assert_eq!(Indicator::Broken(Breakage::ElevatedWindow).glyph(), "⚠");
    assert_eq!(
        Indicator::ExcludedApp.describe(Some("code.exe")),
        "GlowKey — off in code.exe (ignore list)"
    );
    assert_eq!(Indicator::ExcludedApp.describe(None), "GlowKey — off in this app (ignore list)");
    assert_eq!(Indicator::Vietnamese.describe_in(None, true), "GlowKey — tiếng Việt");
}
