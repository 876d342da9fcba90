use glowkey::default_exclusions::windows::chromium_app_prefixes;
use glowkey::windows::inject::{
    emit_edit, is_own_event, needs_omnibox_guard, replay_key, KeyInput, RefusalLog,
    GLOWKEY_INJECTED, VK_BACK, VK_DELETE,
};

fn vk_of(input: &KeyInput) -> Option<u16> {
    match input {
        KeyInput::Key { vk, .. } => Some(*vk),
        KeyInput::Unicode { .. } => None,
    }
}

#[test]
fn a_chromium_edit_sends_no_forward_delete_without_omnibox_focus() {
    for app in ["chrome.exe", "msedge.exe", "slack.exe", "code.exe"] {
        let inputs = emit_edit(2, "ồ", Some(app), false);
        assert!(!inputs.iter().any(|i| vk_of(i) == Some(VK_DELETE)), "{app}");
        assert!(inputs.iter().any(|i| vk_of(i) == Some(VK_BACK)), "{app}");
    }
}

#[test]
fn the_hong_diff_is_three_backspaces_then_the_text() {
    let inputs = emit_edit(3, "ồng", Some("chrome.exe"), false);
    let vks: Vec<Option<u16>> = inputs.iter().map(vk_of).collect();
    assert_eq!(
        vks,
        vec![
            Some(VK_BACK),
            Some(VK_BACK),
            Some(VK_BACK),
            Some(VK_BACK),
            Some(VK_BACK),
            Some(VK_BACK),
            None,
            None,
            None,
            None,
            None,
            None,
        ]
    );
    let units: Vec<u16> = inputs
        .iter()
        .filter_map(|i| match i {
            KeyInput::Unicode { unit, up: false } => Some(*unit),
            _ => None,
        })
        .collect();
    assert_eq!(units, "ồng".encode_utf16().collect::<Vec<_>>());
}

#[test]
fn the_guard_comes_first_when_the_address_bar_has_focus() {
    let inputs = emit_edit(1, "a", Some("msedge.exe"), true);
    assert_eq!(inputs[0], KeyInput::Key { vk: VK_DELETE, up: false });
    assert_eq!(inputs[1], KeyInput::Key { vk: VK_DELETE, up: true });
    assert_eq!(inputs[2], KeyInput::Key { vk: VK_BACK, up: false });
    assert_eq!(inputs.len(), 6);
}

#[test]
fn a_character_outside_the_basic_plane_is_two_units() {
    let inputs = emit_edit(0, "\u{1F600}", None, false);
    assert_eq!(inputs.len(), 4);
}

#[test]
fn the_omnibox_guard_needs_focus_in_the_address_bar() {
    assert!(needs_omnibox_guard(1, Some("msedge.exe"), true));
    assert!(needs_omnibox_guard(3, Some("chrome.exe"), true));
    assert!(!needs_omnibox_guard(1, Some("msedge.exe"), false));
    assert!(!needs_omnibox_guard(3, Some("chrome.exe"), false));
    assert!(!needs_omnibox_guard(1, Some("slack.exe"), false));
    assert!(!needs_omnibox_guard(0, Some("msedge.exe"), true));
    assert!(!needs_omnibox_guard(1, Some("notepad.exe"), true));
    assert!(!needs_omnibox_guard(1, None, true));
}

#[test]
fn the_guard_uses_the_shipped_chromium_table() {
    for app in chromium_app_prefixes() {
        assert!(needs_omnibox_guard(1, Some(app), true), "{app} is in the shipped table and must be guarded");
        assert!(!needs_omnibox_guard(1, Some(app), false), "{app} must not be guarded when focus is not the address bar");
    }
}

#[test]
fn our_own_events_are_recognized() {
    assert!(is_own_event(GLOWKEY_INJECTED));
}

#[test]
fn everything_else_is_not_ours() {
    assert!(!is_own_event(0));
    assert!(!is_own_event(GLOWKEY_INJECTED - 1));
    assert!(!is_own_event(GLOWKEY_INJECTED + 1));
    assert!(!is_own_event(0xDEAD_BEEF));
    assert!(!is_own_event(usize::MAX));
}

#[test]
fn the_tag_spells_glow() {
    assert_eq!(
        GLOWKEY_INJECTED.to_be_bytes()[std::mem::size_of::<usize>() - 4..],
        *b"GLOW"
    );
}

#[test]
fn a_replayed_key_is_pressed_then_released() {
    assert_eq!(
        replay_key(0x20),
        vec![KeyInput::Key { vk: 0x20, up: false }, KeyInput::Key { vk: 0x20, up: true }]
    );
}

#[test]
fn a_run_of_refusals_is_reported_once() {
    let mut log = RefusalLog::new();
    assert!(log.after_send(0, 4));
    assert!(!log.after_send(0, 4));
    assert!(!log.after_send(4, 4));
    assert!(log.after_send(1, 4), "a later run is reported again");
}
