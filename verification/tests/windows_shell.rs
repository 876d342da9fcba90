use glowkey::session::ExclusionToggle;
use glowkey::settings::{InputMode, Settings};
use glowkey::windows::elevation::Reach;
use glowkey::windows::foreground::Foreground;
use glowkey::windows::hook::Hook;
use glowkey::windows::indicator::{Breakage, Indicator};
use glowkey::windows::shell::Shell;
use glowkey::windows::ui_thread::{open_about, open_settings, UiAction, UiHost};

fn shell() -> Shell {
    let mut hook = Hook::new();
    hook.set_state(&Settings::with_shipped_defaults(&glowkey::default_exclusions::windows::default_exclusions()));
    hook.installed(42);
    Shell { hook, foreground: Foreground::new() }
}

#[test]
fn the_snapshot_names_the_foreground_application() {
    let mut s = shell();
    assert!(s.hook.is_installed());
    s.foreground.update("code.exe".into(), 1, Reach::Reachable);
    let (indicator, app) = s.foreground_changed("code.exe").expect("a session");
    assert_eq!(indicator, Indicator::ExcludedApp, "code.exe ships excluded");
    assert_eq!(app.as_deref(), Some("code.exe"));
    s.foreground.update("notepad.exe".into(), 1, Reach::Reachable);
    let (indicator, _) = s.foreground_changed("notepad.exe").unwrap();
    assert_eq!(indicator, Indicator::Vietnamese);
}

#[test]
fn a_dead_hook_is_reported_by_the_snapshot() {
    let mut s = shell();
    let (old, _) = s.reinstall_hook(0);
    assert_eq!(old, 42);
    assert!(!s.hook.is_installed());
    let snap = s.snapshot().unwrap();
    assert_eq!(snap.indicator, Indicator::Broken(Breakage::HookGone));
}

#[test]
fn menu_toggles_mark_the_settings_dirty() {
    let mut s = shell();
    assert_eq!(s.toggle_mode(), Some(InputMode::English));
    assert!(s.hook.take_pending_save().is_some());
    assert_eq!(s.toggle_auto_fix(), Some(false));
    let saved = s.hook.take_pending_save().unwrap();
    assert!(!saved.auto_fix);
    assert_eq!(s.toggle_current_app(), None, "no application known yet");
    s.foreground.update("windowsterminal.exe".into(), 1, Reach::Reachable);
    assert_eq!(s.toggle_current_app(), Some(ExclusionToggle::EnabledSessionOnly));
    assert!(s.hook.take_pending_save().is_none(), "a session-only enabling is not saved");
}

#[test]
fn applying_no_change_is_a_no_op() {
    let mut s = shell();
    assert!(s.apply_settings(&Settings::default(), None).is_none());
}

#[test]
fn applied_settings_keep_what_the_session_learned() {
    let mut s = shell();
    let opened = s.open_settings().unwrap();
    s.hook.session_mut().unwrap().set_word_override("cats", glowkey::settings::WordPreference::Vietnamese);
    let mut edited = opened.clone();
    edited.quick_telex = true;
    let merged = s.apply_settings(&opened, Some(edited)).unwrap();
    assert!(merged.quick_telex);
    assert_eq!(merged.word_overrides.len(), 1);
    assert!(s.hook.session().unwrap().quick_telex());
}

#[test]
fn the_hook_flushes_and_toggles_the_told_application() {
    let mut hook = Hook::new();
    hook.flush_session();
    hook.mark_dirty();
    assert!(hook.take_pending_save().is_none(), "no state, nothing to save");
    hook.set_state(&Settings::default());
    assert_eq!(hook.toggle_app(), None);
    hook.note_app(Some("notepad.exe"));
    assert_eq!(hook.toggle_app(), Some(ExclusionToggle::Excluded));
    assert!(hook.take_pending_refresh());
    assert!(!hook.take_pending_refresh());
    assert!(hook.take_pending_save().is_some());
}

#[test]
fn open_commands_create_one_window_each() {
    let mut host = UiHost::new();
    assert_eq!(host.handle(open_settings(Settings::default())), UiAction::Opened);
    assert_eq!(host.handle(open_settings(Settings::default())), UiAction::Focus);
    assert_eq!(host.handle(open_about()), UiAction::Opened);
    assert_eq!(host.handle(open_about()), UiAction::Focus);
    host.about_closed();
    assert_eq!(host.handle(open_about()), UiAction::Opened);
}

#[test]
fn a_decided_settings_window_is_released() {
    let mut host = UiHost::new();
    host.handle(open_settings(Settings::default()));
    assert!(host.release_decided().is_none());
    host.settings_window().unwrap().finalize();
    let (_, outcome) = host.release_decided().expect("decided");
    assert!(outcome.is_none());
    assert!(host.settings_window().is_none());
}

#[test]
fn toggling_the_mode_leaves_every_setting_alone() {
    let mut s = shell();
    let before = s.snapshot().unwrap();
    let settings_before = s.open_settings().unwrap();
    assert_eq!(s.toggle_mode(), Some(InputMode::English));
    let after = s.snapshot().unwrap();
    assert_eq!(after.auto_fix, before.auto_fix);
    let settings_after = s.open_settings().unwrap();
    assert_eq!(settings_after.auto_fix, settings_before.auto_fix);
    assert_eq!(settings_after.exclusions, settings_before.exclusions);
    assert_eq!(settings_after.macros.len(), settings_before.macros.len());
}

#[test]
fn applying_settings_keeps_the_application_in_front() {
    let mut s = shell();
    s.foreground.update("code.exe".into(), 1, Reach::Reachable);
    let current = s.open_settings().unwrap();
    let mut edited = current.clone();
    edited.auto_fix = !current.auto_fix;
    let merged = s.apply_settings(&current, Some(edited)).unwrap();
    assert_eq!(merged.auto_fix, !current.auto_fix);
    let (indicator, app) = s.refresh_indicator().unwrap();
    assert_eq!(app.as_deref(), Some("code.exe"));
    assert_eq!(indicator, Indicator::ExcludedApp, "code.exe ships excluded, and stays in front");
}
