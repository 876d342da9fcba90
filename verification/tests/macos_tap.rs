use glowkey::keys::{Key, KeyEvent, Modifiers};
use glowkey::macos::adapt::{key_for, modifier_names, modifiers, MASK_ALTERNATE, MASK_COMMAND, MASK_CONTROL, MASK_SHIFT};
use glowkey::macos::menu_bar::{glyph, hotkey_display, menu_items, readable_identifier, refresh_glyph, MenuAction, MenuItem};
use glowkey::macos::prefs::PrefsWindow;
use glowkey::macos::tap_state::{Decision, TapState};
use glowkey::session::ExclusionToggle;
use glowkey::settings::{HotkeyPreset, InputMethod, InputMode, Language, Settings, WordPreference};

fn event(key: Key, mods: Modifiers, raw_code: i64) -> KeyEvent {
    KeyEvent { ch: None, key, mods, raw_code }
}

#[test]
fn toggles_and_setters_save() {
    let mut state = TapState::new(&Settings::default());
    assert!(state.take_save().is_none());
    state.toggle_auto_fix_and_save();
    assert!(!state.auto_fix());
    let saved = state.take_save().expect("a save is pending");
    assert!(!saved.auto_fix);
    assert!(state.take_save().is_none(), "taken once");
    state.set_quick_telex_and_save(true);
    assert!(state.quick_telex());
    state.set_language_and_save(Language::Vietnamese);
    assert_eq!(state.language(), Language::Vietnamese);
    state.set_open_settings_at_launch_and_save(false);
    assert!(!state.open_settings_at_launch());
    state.toggle_mode_and_save();
    assert_eq!(state.menu_state("com.apple.TextEdit").0, InputMode::English);
    assert!(state.take_save().is_some());
}

#[test]
fn exclusions_are_per_app_and_independent() {
    let mut state = TapState::new(&Settings::default());
    assert_eq!(state.toggle_app_exclusion_and_save("com.apple.TextEdit"), ExclusionToggle::Excluded);
    assert!(state.menu_state("com.apple.TextEdit").2);
    assert!(!state.menu_state("com.apple.Notes").2);
    state.remove_exclusion_and_save("com.apple.TextEdit");
    assert!(!state.menu_state("com.apple.TextEdit").2);
    state.add_exclusion_and_save("com.apple.Notes");
    state.add_exclusion_and_save("com.apple.Notes");
    assert_eq!(state.exclusion_ids().iter().filter(|id| id.as_str() == "com.apple.Notes").count(), 1);
}

#[test]
fn macros_and_words_are_edited_in_place() {
    let mut state = TapState::new(&Settings::default());
    assert!(!state.add_macro_and_save("  ", "x"));
    assert!(state.take_save().is_none(), "a refused macro saves nothing");
    assert!(state.add_macro_and_save(" vn ", " Việt Nam "));
    assert!(state.has_macro("VN"));
    assert!(state.add_macro_and_save("Vn", "Viet Nam"));
    assert_eq!(state.macros().len(), 1);
    assert_eq!(state.macros()[0].expansion, "Viet Nam");
    state.remove_macro_and_save(5);
    assert_eq!(state.macros().len(), 1);
    state.remove_macro_and_save(0);
    assert!(!state.has_macro("vn"));
    state.set_word_override_and_save("cats", WordPreference::Vietnamese);
    assert_eq!(state.word_override("cats"), Some(WordPreference::Vietnamese));
    state.remove_word_override_and_save("cats");
    assert_eq!(state.word_override("cats"), None);
    assert!(state.word_overrides().is_empty());
}

#[test]
fn hotkey_recording_captures_a_custom_combo() {
    let mut state = TapState::new(&Settings::default());
    state.begin_hotkey_recording();
    assert!(state.is_recording_hotkey());
    let plain = KeyEvent { ch: Some('k'), key: Key::Letter('k'), mods: Modifiers::default(), raw_code: 40 };
    assert_eq!(state.capture_hotkey(&plain), Decision::Passthrough);
    assert!(state.is_recording_hotkey());
    let cmd = event(Key::Letter('q'), Modifiers { command: true, ..Modifiers::default() }, 12);
    assert_eq!(state.capture_hotkey(&cmd), Decision::Passthrough);
    assert!(state.is_recording_hotkey());
    let reserved = event(Key::Letter('e'), Modifiers { control: true, shift: true, ..Modifiers::default() }, 14);
    assert_eq!(state.capture_hotkey(&reserved), Decision::Consume);
    assert!(state.is_recording_hotkey());
    assert_eq!(state.toggle_hotkey(), HotkeyPreset::CtrlShiftSpace);
    let combo = event(Key::Letter('k'), Modifiers { control: true, option: true, ..Modifiers::default() }, 40);
    assert_eq!(state.capture_hotkey(&combo), Decision::Consume);
    assert!(!state.is_recording_hotkey());
    assert!(matches!(
        state.toggle_hotkey(),
        HotkeyPreset::Custom { control: true, shift: false, option: true, key_char: 'k', raw_code: Some(40) }
    ));
}

#[test]
fn hotkey_recording_escape_cancels() {
    let mut state = TapState::new(&Settings::default());
    state.begin_hotkey_recording();
    assert_eq!(state.capture_hotkey(&event(Key::Escape, Modifiers::default(), 53)), Decision::Consume);
    assert!(!state.is_recording_hotkey());
    assert_eq!(state.toggle_hotkey(), HotkeyPreset::CtrlShiftSpace);
}

#[test]
fn hotkey_recording_cancelled_by_mouse_click() {
    let mut state = TapState::new(&Settings::default());
    state.begin_hotkey_recording();
    state.flush();
    assert!(!state.is_recording_hotkey());
}

#[test]
fn reset_clears_the_breaker_and_the_word() {
    let mut state = TapState::new(&Settings::default());
    state.reset();
    assert!(state.take_save().is_none(), "a reset changes nothing persisted");
}

#[test]
fn the_menu_bar_glyph_has_three_states() {
    let dead = glyph(true, true, true);
    assert_eq!(dead.title, "⚠");
    let on = glyph(false, true, true);
    assert_eq!(on.title, "VI");
    assert!(!on.dimmed);
    let here_off = glyph(false, true, false);
    assert_eq!(here_off.title, "VI");
    assert!(here_off.dimmed);
    assert_eq!(glyph(false, false, false).title, "EN");
    let state = TapState::new(&Settings::default());
    let g = refresh_glyph(&state, false);
    assert_eq!(g.title, "VI");
    assert!(g.dimmed, "no application known yet, so Vietnamese is not in effect");
}

#[test]
fn hotkeys_are_shown_as_typed() {
    assert_eq!(hotkey_display(HotkeyPreset::CtrlShiftSpace), "⌃⇧Space");
    assert_eq!(hotkey_display(HotkeyPreset::OptionSpace), "⌥Space");
    assert_eq!(
        hotkey_display(HotkeyPreset::Custom { control: true, shift: true, option: true, key_char: 'k', raw_code: None }),
        "⌃⌥⇧k"
    );
    assert_eq!(
        hotkey_display(HotkeyPreset::Custom { control: true, shift: false, option: false, key_char: ' ', raw_code: Some(49) }),
        "⌃Space"
    );
}

#[test]
fn a_bundle_identifier_reads_as_a_name() {
    assert_eq!(readable_identifier("com.mitchellh.ghostty"), "Ghostty");
    assert_eq!(readable_identifier("com.apple."), "com.apple.");
    assert_eq!(readable_identifier("ghostty"), "Ghostty");
}

#[test]
fn the_menu_names_the_configured_hotkey() {
    let items = menu_items(false, "TextEdit", InputMode::Vietnamese, true, false, HotkeyPreset::OptionSpace, false, false);
    let titles: Vec<String> = items
        .iter()
        .filter_map(|i| match i {
            MenuItem::Item { title, .. } => Some(title.clone()),
            MenuItem::Separator => None,
        })
        .collect();
    assert_eq!(titles[0], "Vietnamese");
    assert_eq!(titles[1], "Disable for “TextEdit”");
    assert_eq!(titles[2], "Vietnamese input (⌥Space)");
    let dead = menu_items(true, "TextEdit", InputMode::English, false, true, HotkeyPreset::CtrlShiftSpace, true, false);
    assert!(matches!(&dead[1], MenuItem::Item { action: MenuAction::OpenAccessibilitySettings, .. }));
    assert!(matches!(&dead[3], MenuItem::Item { title, .. } if title == "Excluded in TextEdit"));
}

#[test]
fn mac_keys_and_flags_are_read() {
    assert_eq!(key_for(51), Key::Backspace);
    assert_eq!(key_for(40), Key::Letter('k'));
    assert_eq!(key_for(10), Key::Other);
    assert_eq!(key_for(76), Key::Return);
    let m = modifiers(MASK_CONTROL | MASK_SHIFT);
    assert!(m.control && m.shift && !m.option && !m.command);
    assert_eq!(modifier_names(MASK_COMMAND | MASK_ALTERNATE), "⌘⌥");
    assert_eq!(modifier_names(0), "-");
}

#[test]
fn the_settings_window_refreshes_only_once_it_exists() {
    let mut prefs = PrefsWindow::new();
    prefs.personal_words_changed();
    prefs.hotkey_recording_done();
    assert_eq!(prefs.take_refreshes(), (false, false));
    prefs.created();
    prefs.hotkey_recording_done();
    assert_eq!(prefs.take_refreshes(), (false, true));
    assert_eq!(prefs.take_refreshes(), (false, false));
}

#[test]
fn a_macro_just_added_is_found_by_its_shortcut() {
    let mut tap = glowkey::macos::tap_state::TapState::new(&glowkey::settings::Settings::default());
    assert!(!tap.has_macro("ko"));
    assert!(tap.add_macro_and_save("ko", "không"));
    assert!(tap.has_macro("ko"));
    assert!(tap.has_macro("KO"), "ignoring ASCII case");
    assert!(tap.add_macro_and_save("  vn ", "Việt Nam"));
    assert!(tap.has_macro("vn"), "stored trimmed");
}

#[test]
fn the_macro_lookup_trims_as_the_add_does() {
    let mut tap = TapState::new(&Settings::default());
    assert!(tap.add_macro_and_save(" vn ", "Việt Nam"));
    assert!(tap.has_macro(" vn "));
    assert!(tap.has_macro("VN"));
    assert!(!tap.has_macro("v n"));
}

#[test]
fn the_input_method_segments_include_simple_telex() {
    assert_eq!(InputMethod::from_segment(0), InputMethod::Telex);
    assert_eq!(InputMethod::from_segment(1), InputMethod::Vni);
    assert_eq!(InputMethod::from_segment(2), InputMethod::SimpleTelex);
    assert_eq!(InputMethod::from_segment(7), InputMethod::Telex);
    assert_eq!(InputMethod::SimpleTelex.segment(), 2);
    let mut tap = TapState::new(&Settings::default());
    tap.set_input_method_and_save(InputMethod::SimpleTelex);
    assert_eq!(tap.input_method(), InputMethod::SimpleTelex);
    assert_eq!(tap.take_save().unwrap().input_method, InputMethod::SimpleTelex);
}
