use glowkey::keys::{Key, Modifiers};
use glowkey::windows::adapt::{
    is_down, is_toggled, key_for, modifier_names, modifiers, translated_char, translation_state,
    DeadKey, HeldKeys, VK_BACK, VK_CAPITAL, VK_CONTROL, VK_DELETE, VK_DOWN, VK_END, VK_HOME,
    VK_LEFT, VK_MENU, VK_NEXT, VK_PRIOR, VK_RIGHT, VK_SHIFT, VK_UP,
};

#[test]
fn every_mapped_key_is_recognized() {
    assert_eq!(key_for(VK_BACK), Key::Backspace);
    assert_eq!(key_for(VK_DELETE), Key::ForwardDelete);
    assert_eq!(key_for(0x1B), Key::Escape);
    assert_eq!(key_for(0x20), Key::Space);
    assert_eq!(key_for(0x0D), Key::Return);
    assert_eq!(key_for(0x09), Key::Tab);
}

#[test]
fn all_caret_moves_are_one_class() {
    for vk in [VK_LEFT, VK_RIGHT, VK_UP, VK_DOWN, VK_HOME, VK_END, VK_PRIOR, VK_NEXT] {
        assert_eq!(key_for(vk), Key::CaretMove);
    }
}

#[test]
fn letters_map_across_the_whole_range() {
    assert_eq!(key_for(0x41), Key::Letter('a'));
    assert_eq!(key_for(0x5A), Key::Letter('z'));
    assert_eq!(key_for(0x4D), Key::Letter('m'));
}

#[test]
fn the_letter_range_has_no_neighbours() {
    assert_eq!(key_for(0x40), Key::Other);
    assert_eq!(key_for(0x5B), Key::Other);
}

#[test]
fn digits_are_not_letters() {
    for vk in 0x30..=0x39u16 {
        assert_eq!(key_for(vk), Key::Other);
    }
}

#[test]
fn modifier_names_read_as_a_shortcut() {
    let none = Modifiers::default();
    assert_eq!(modifier_names(&none), "-");
    let ctrl_shift = Modifiers { control: true, shift: true, ..Modifiers::default() };
    assert_eq!(modifier_names(&ctrl_shift), "Ctrl+Shift");
    let all = Modifiers { control: true, shift: true, option: true, command: true };
    assert_eq!(modifier_names(&all), "Win+Ctrl+Alt+Shift");
}

#[test]
fn a_pending_dead_key_is_taken_once() {
    let mut dead = DeadKey::new();
    dead.set_pending_dead_key(Some((0xC0, 41)));
    assert_eq!(dead.take_pending_dead_key(), Some((0xC0, 41)));
    assert_eq!(dead.take_pending_dead_key(), None, "taken once, not twice");
}

#[test]
fn altgr_reaches_the_engine_rather_than_flushing_the_word() {
    let (mods, altgr) = modifiers(HeldKeys {
        control: true,
        shift: false,
        alt: true,
        right_alt: true,
        left_win: false,
        right_win: false,
    });
    assert!(altgr);
    assert!(!mods.is_shortcut(), "AltGr must reach the engine as a character, not flush the word");
    let only_control_withheld = Modifiers { control: false, option: true, ..Modifiers::default() };
    assert!(only_control_withheld.is_shortcut());
    let only_alt_withheld = Modifiers { control: true, option: false, ..Modifiers::default() };
    assert!(only_alt_withheld.is_shortcut());
    let (ctrl_alt, altgr) = modifiers(HeldKeys {
        control: true,
        shift: false,
        alt: true,
        right_alt: false,
        left_win: false,
        right_win: false,
    });
    assert!(!altgr);
    assert!(ctrl_alt.is_shortcut());
}

#[test]
fn held_and_toggled_are_different_bits() {
    assert!(is_down(-32768i16));
    assert!(!is_down(1));
    assert!(is_toggled(1));
    assert!(!is_toggled(-32768i16));
}

#[test]
fn the_layout_sees_altgr_and_caps_lock() {
    let state = translation_state(Modifiers::default(), true, true);
    assert_eq!(state.len(), 256);
    assert_eq!(state[VK_CONTROL as usize], 0x80);
    assert_eq!(state[VK_MENU as usize], 0x80);
    assert_eq!(state[VK_CAPITAL as usize], 0x01);
    assert_eq!(state[VK_SHIFT as usize], 0);
}

#[test]
fn a_translation_keeps_its_last_character() {
    assert_eq!(translated_char(-1, &[0x60]), None);
    assert_eq!(translated_char(0, &[]), None);
    assert_eq!(translated_char(2, &[0x60, 0x61]), Some('a'));
    assert_eq!(translated_char(1, &[0xD800]), None);
}
