use glowkey::macos::port::{hud_text, toggle_described, Deferred, Notice, TapAction};
use glowkey::session::ExclusionToggle;
use glowkey::settings::{InputMode, Settings};
use glowkey::windows::hook::{CallbackTiming, Effects, Hook, KeyDecision};
use glowkey::windows::inject::{KeyInput, VK_BACK, VK_DELETE};

fn seeded() -> Hook {
    let mut hook = Hook::new();
    hook.set_state(&Settings::default());
    hook
}

#[test]
fn a_passthrough_lets_the_key_through_and_injects_nothing() {
    let mut hook = seeded();
    let (suppress, inputs, toggled) = hook.carry_out(&KeyDecision::Passthrough, 0x41, false);
    assert!(!suppress);
    assert!(inputs.is_empty());
    assert_eq!(toggled, None);
}

#[test]
fn a_consume_swallows_the_key_and_injects_nothing() {
    let mut hook = seeded();
    let (suppress, inputs, toggled) = hook.carry_out(&KeyDecision::Consume, 0x41, false);
    assert!(suppress);
    assert!(inputs.is_empty());
    assert_eq!(toggled, None);
}

#[test]
fn an_emit_deletes_then_types() {
    let mut hook = seeded();
    let decision = KeyDecision::Emit { backspaces: 1, insert: "ơ".into() };
    let (suppress, inputs, _) = hook.carry_out(&decision, 0x57, false);
    assert!(suppress);
    assert_eq!(
        inputs,
        vec![
            KeyInput::Key { vk: VK_BACK, up: false },
            KeyInput::Key { vk: VK_BACK, up: true },
            KeyInput::Unicode { unit: 0x01A1, up: false },
            KeyInput::Unicode { unit: 0x01A1, up: true },
        ]
    );
}

#[test]
fn a_replayed_key_follows_its_edit() {
    let mut hook = seeded();
    let decision = KeyDecision::EmitThenReplayKey { backspaces: 2, insert: "đ".into() };
    let (suppress, inputs, _) = hook.carry_out(&decision, 0x20, false);
    assert!(suppress);
    assert_eq!(inputs.len(), 4 + 2 + 2);
    assert_eq!(inputs[6], KeyInput::Key { vk: 0x20, up: false });
    assert_eq!(inputs[7], KeyInput::Key { vk: 0x20, up: true });
    assert_eq!(inputs[4], KeyInput::Unicode { unit: 0x0111, up: false });
}

#[test]
fn an_emit_in_a_chromium_address_bar_starts_with_a_forward_delete() {
    let mut hook = seeded();
    hook.note_app(Some("chrome.exe"));
    let decision = KeyDecision::Emit { backspaces: 1, insert: "a".into() };
    let (_, inputs, _) = hook.carry_out(&decision, 0x41, true);
    assert_eq!(inputs[0], KeyInput::Key { vk: VK_DELETE, up: false });
    assert_eq!(inputs[1], KeyInput::Key { vk: VK_DELETE, up: true });
    let (_, plain, _) = hook.carry_out(&decision, 0x41, false);
    assert_eq!(plain[0], KeyInput::Key { vk: VK_BACK, up: false });
}

#[test]
fn the_app_toggle_before_any_app_is_known_does_nothing_but_swallow() {
    let mut hook = seeded();
    let (suppress, inputs, toggled) = hook.carry_out(&KeyDecision::ToggleApp, 0x45, false);
    assert!(suppress);
    assert!(inputs.is_empty());
    assert_eq!(toggled, None);
    assert!(hook.take_pending_save().is_none());
    assert!(!hook.take_pending_refresh());
}

#[test]
fn the_app_toggle_excludes_saves_and_repaints() {
    let mut hook = seeded();
    hook.note_app(Some("notepad.exe"));
    let (suppress, _, toggled) = hook.carry_out(&KeyDecision::ToggleApp, 0x45, false);
    assert!(suppress);
    assert_eq!(toggled, Some(ExclusionToggle::Excluded));
    let saved = hook.take_pending_save().expect("a save");
    assert!(saved.exclusions.iter().any(|e| e == "notepad.exe"));
    assert!(hook.take_pending_refresh());
    let (_, _, again) = hook.carry_out(&KeyDecision::ToggleApp, 0x45, false);
    assert_eq!(again, Some(ExclusionToggle::Enabled));
}

#[test]
fn effects_turn_into_requests_for_the_loop() {
    let mut hook = seeded();
    hook.carry_out_effects(&Effects { save_settings: false, refresh_glyph: true });
    assert!(hook.take_pending_save().is_none());
    assert!(hook.take_pending_refresh());
    hook.carry_out_effects(&Effects { save_settings: true, refresh_glyph: false });
    assert!(hook.take_pending_save().is_some());
    assert!(!hook.take_pending_refresh());
}

#[test]
fn the_hud_confirms_each_notice() {
    assert_eq!(hud_text(&Notice::ModeToggled(InputMode::Vietnamese)).as_deref(), Some("VI"));
    assert_eq!(hud_text(&Notice::ModeToggled(InputMode::English)).as_deref(), Some("EN"));
    assert_eq!(hud_text(&Notice::PersonalWordsChanged), None);
    assert_eq!(
        hud_text(&Notice::Corrected { was: "tẻm".into(), becomes: "term".into() }).as_deref(),
        Some("tẻm → term")
    );
    assert_eq!(hud_text(&Notice::AppToggled(ExclusionToggle::Excluded)).as_deref(), Some("EN"));
    assert_eq!(hud_text(&Notice::AppToggled(ExclusionToggle::Enabled)).as_deref(), Some("VI"));
    assert_eq!(hud_text(&Notice::AppToggled(ExclusionToggle::EnabledSessionOnly)).as_deref(), Some("VI ⚠"));
}

#[test]
fn a_terminal_enabled_by_hotkey_is_logged_as_temporary() {
    assert_eq!(toggle_described(ExclusionToggle::Excluded), "disabled");
    assert_eq!(toggle_described(ExclusionToggle::Enabled), "enabled");
    assert!(toggle_described(ExclusionToggle::EnabledSessionOnly).starts_with("enabled UNTIL RESTART"));
}

#[test]
fn deferred_work_comes_out_edits_first() {
    let mut d = Deferred::new();
    assert!(d.actions().is_empty());
    d.notify(&Notice::ModeToggled(InputMode::English));
    d.inject(2, "ư");
    d.replay_key();
    d.inject(0, "a");
    d.request_indicator();
    d.notify(&Notice::PersonalWordsChanged);
    d.notify(&Notice::AppToggled(ExclusionToggle::Enabled));
    assert_eq!(
        d.actions(),
        vec![
            TapAction::PostEdit { backspaces: 2, insert: "ư".into() },
            TapAction::PostEdit { backspaces: 0, insert: "a".into() },
            TapAction::ReplayKey,
            TapAction::RefreshGlyph,
            TapAction::ReloadPersonalWords,
            TapAction::Hud("VI".into()),
        ]
    );
}

#[test]
fn only_a_new_slow_worst_case_is_reported() {
    let mut t = CallbackTiming::new();
    assert!(!t.record(500), "fast: not worth a line");
    assert!(t.record(12_000), "a new worst case above the threshold");
    assert!(!t.record(11_000), "slow, but not a new worst case");
    assert!(t.record(20_000));
    assert!(!t.record(20_000), "equal is not new");
}

#[test]
fn only_a_human_key_down_with_state_is_examined() {
    let empty = Hook::new();
    let hook = seeded();
    let own = glowkey::windows::inject::GLOWKEY_INJECTED;
    assert!(hook.examines(0, glowkey::windows::hook::WM_KEYDOWN, 0));
    assert!(hook.examines(0, glowkey::windows::hook::WM_SYSKEYDOWN, 7));
    assert!(!hook.examines(1, glowkey::windows::hook::WM_KEYDOWN, 0), "not an action code");
    assert!(!hook.examines(0, glowkey::windows::hook::WM_KEYDOWN, own), "our own injection");
    assert!(!hook.examines(0, 0x0101, 0), "a key-up");
    assert!(!empty.examines(0, glowkey::windows::hook::WM_KEYDOWN, 0), "no state yet");
}
