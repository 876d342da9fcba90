use glowkey::default_exclusions::Platform;
use glowkey::settings::{merge_settings, Settings, WordOverride, WordPreference};
use glowkey::windows::settings_window::{normalize_exclusions, SettingsApp};

fn taught_word() -> WordOverride {
    WordOverride { keys: "cats".into(), prefer: WordPreference::Vietnamese }
}

fn words(s: &Settings) -> Vec<(String, WordPreference)> {
    s.word_overrides.iter().map(|w| (w.keys.clone(), w.prefer)).collect()
}

#[test]
fn a_word_taught_while_the_window_was_open_survives() {
    let baseline = Settings::default();
    let mut edited = baseline.clone();
    edited.auto_capitalize = true;
    let mut live = baseline.clone();
    live.word_overrides = vec![taught_word()];
    let merged = merge_settings(&baseline, &edited, live);
    assert_eq!(words(&merged), vec![("cats".to_string(), WordPreference::Vietnamese)]);
    assert!(merged.auto_capitalize, "the window's own edit still applies");
}

#[test]
fn a_hotkey_exclusion_made_while_the_window_was_open_survives() {
    let baseline = Settings::default();
    let mut edited = baseline.clone();
    edited.quick_telex = true;
    let mut live = baseline.clone();
    live.exclusions.push("someapp.exe".into());
    let merged = merge_settings(&baseline, &edited, live);
    assert!(merged.exclusions.iter().any(|id| id == "someapp.exe"));
    assert!(merged.quick_telex);
}

#[test]
fn the_window_wins_the_fields_the_user_edited() {
    let baseline = Settings::default();
    let mut edited = baseline.clone();
    edited.auto_fix = !baseline.auto_fix;
    let mut live = baseline.clone();
    live.auto_fix = baseline.auto_fix;
    let merged = merge_settings(&baseline, &edited, live);
    assert_eq!(merged.auto_fix, !baseline.auto_fix);
}

#[test]
fn no_edits_anywhere_changes_nothing() {
    let baseline = Settings::default();
    let mut live = baseline.clone();
    live.word_overrides = vec![taught_word()];
    let merged = merge_settings(&baseline, &baseline, live.clone());
    assert!(glowkey::settings::settings_eq(&merged, &live));
}

#[test]
fn a_tray_exclusion_survives_the_real_window_round_trip() {
    let mut opened_on = Settings::with_shipped_defaults(&glowkey::default_exclusions::windows::default_exclusions());
    opened_on.exclusions = vec!["zzz.exe".into(), "aaa.exe".into()];
    let mut app = SettingsApp::new(opened_on.clone(), Platform::Windows);
    let draft = app.draft_mut();
    draft.auto_capitalize = !draft.auto_capitalize;
    app.finalize();
    let edited = app.take_result().expect("decided").expect("changed");
    let mut live = opened_on.clone();
    live.exclusions.push("game.exe".into());
    let merged = merge_settings(&app.baseline(), &edited, live);
    assert!(merged.exclusions.iter().any(|e| e == "game.exe"), "{:?}", merged.exclusions);
    assert_eq!(merged.auto_capitalize, edited.auto_capitalize);
}

#[test]
fn no_edits_means_no_change_to_report() {
    let initial = Settings::with_shipped_defaults(&glowkey::default_exclusions::windows::default_exclusions());
    let mut app = SettingsApp::new(initial, Platform::Windows);
    app.finalize();
    assert!(app.take_result().expect("decided").is_none());
}

#[test]
fn exclusion_list_edits_round_trip_into_settings_fields() {
    let initial = Settings::with_shipped_defaults(&glowkey::default_exclusions::windows::default_exclusions());
    let mut app = SettingsApp::new(initial.clone(), Platform::Windows);
    app.add_exclusion("mycustomapp.exe");
    app.finalize();
    let draft = app.take_result().expect("decided").expect("changed");
    assert!(!glowkey::settings::settings_eq(&draft, &normalize_exclusions(&initial, Platform::Windows)));
    let list = draft.exclusion_list(&glowkey::default_exclusions::windows::default_exclusions());
    assert!(list.is_excluded("mycustomapp.exe"));
}

#[test]
fn a_decided_window_stays_decided() {
    let initial = Settings::default();
    let mut app = SettingsApp::new(initial, Platform::MacOs);
    app.finalize();
    app.draft_mut().auto_fix = false;
    app.finalize();
    assert!(app.take_result().expect("decided").is_none(), "the first decision stands");
    assert!(app.take_result().is_none(), "taken once");
}

#[test]
fn defaults_match_shipped_behavior() {
    let s = Settings::default();
    assert!(s.auto_fix);
    assert!(s.open_settings_at_launch);
    let shipped: Vec<String> =
        glowkey::default_exclusions::macos::default_exclusions().iter().map(|s| s.to_string()).collect();
    assert_eq!(s.exclusions, shipped);
    for terminal in glowkey::default_exclusions::macos::terminal_exclusions() {
        assert!(s.exclusions.iter().any(|id| id == terminal));
    }
}

#[test]
fn the_window_bodies_edit_the_draft() {
    let mut app = SettingsApp::new(Settings::default(), Platform::Windows);
    assert!(!app.add_typed_exclusion("   "));
    assert!(app.add_typed_exclusion("  Game.EXE "));
    assert!(app.exclusion_ids().iter().any(|id| id == "game.exe"));
    assert!(!app.save_macro(" ", "x"));
    assert!(app.save_macro(" vn ", " Việt Nam "));
    assert!(app.save_macro("us", "United States"));
    assert_eq!(app.edit_macro(0), Some(("vn".to_string(), "Việt Nam".to_string())));
    assert!(app.save_macro("vnm", "Việt Nam"));
    app.remove_macro(1);
    assert!(app.save_word(" CATS ", WordPreference::Vietnamese));
    assert_eq!(app.edit_word(0), Some(("cats".to_string(), WordPreference::Vietnamese)));
    app.remove_word(0);
    app.import_table(&vec![glowkey::settings::Macro { shortcut: "VNM".into(), expansion: "VN".into() }]);
    app.finalize();
    let result = app.take_result().unwrap().unwrap();
    assert_eq!(result.macros.len(), 1);
    assert_eq!(result.macros[0].shortcut, "VNM");
    assert!(result.word_overrides.is_empty());
    assert!(result.exclusions.iter().any(|id| id == "game.exe"));
}
