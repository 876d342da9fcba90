use glowkey::windows::indicator::{Breakage, Indicator};
use glowkey::windows::shell::Snapshot;
use glowkey::windows::tray::{
    glyph_colour, menu_entries, premultiply, tooltip_units, Command, MenuEntry, TrayShown,
};

#[test]
fn every_command_id_is_unique() {
    let ids: Vec<usize> = Command::all().into_iter().map(|c| c.id()).collect();
    let mut sorted = ids.clone();
    sorted.sort_unstable();
    sorted.dedup();
    assert_eq!(sorted.len(), ids.len(), "two menu entries share an id");
    assert!(!ids.contains(&0), "0 is reserved for the non-clickable line");
    assert_eq!(ids.len(), 11);
    for c in Command::all() {
        assert_eq!(Command::from_id(c.id()), Some(c));
    }
    assert_eq!(Command::from_id(0), None);
    assert_eq!(Command::from_id(12), None);
}

#[test]
fn a_long_tooltip_is_truncated_to_fit() {
    let long = "a".repeat(500) + ".exe";
    let described = Indicator::Broken(Breakage::ElevatedWindow).describe(Some(&long));
    assert!(described.len() > 128, "the case only bites when it overflows");
    let units = tooltip_units(&described, 128);
    assert!(units.len() <= 128, "must fit the field");
    assert_eq!(units.last(), Some(&0), "must stay NUL-terminated");
}

#[test]
fn truncation_never_splits_a_surrogate_pair() {
    let text = "\u{1F600}".repeat(10);
    for capacity in 2..=20 {
        let units = tooltip_units(&text, capacity);
        assert!(units.len() <= capacity);
        assert_eq!(units.last(), Some(&0));
        assert!(
            String::from_utf16(&units[..units.len() - 1]).is_ok(),
            "capacity {capacity} left a lone surrogate"
        );
    }
}

#[test]
fn a_short_tooltip_is_left_alone() {
    let units = tooltip_units("VI", 128);
    assert_eq!(units, vec![u16::from(b'V'), u16::from(b'I'), 0]);
}

#[test]
fn the_glyph_inks_follow_the_state() {
    assert_eq!(glyph_colour(Indicator::Broken(Breakage::HookGone)), (0xCC, 0x20, 0x20));
    assert_eq!(glyph_colour(Indicator::ExcludedApp), (0x80, 0x80, 0x80));
    assert_eq!(glyph_colour(Indicator::Vietnamese), (0xF0, 0xF0, 0xF0));
}

#[test]
fn a_pixel_is_premultiplied_by_its_coverage() {
    assert_eq!(premultiply(0xFF, (0xCC, 0x20, 0x20)), 0xFFCC_2020);
    assert_eq!(premultiply(0, (0xF0, 0xF0, 0xF0)), 0);
    // Half coverage: 0x80 alpha, each channel scaled by 128/255.
    assert_eq!(premultiply(0x1234_5680, (0xFF, 0x80, 0x00)), 0x8080_4000);
}

#[test]
fn an_unchanged_state_is_not_repainted() {
    let mut shown = TrayShown::new();
    assert!(shown.refresh(Indicator::Vietnamese, Some("code.exe")));
    assert!(!shown.refresh(Indicator::Vietnamese, Some("code.exe")));
    assert!(shown.refresh(Indicator::Vietnamese, Some("notepad.exe")));
    assert!(shown.refresh(Indicator::English, Some("notepad.exe")));
}

fn labels(entries: &[MenuEntry]) -> Vec<(usize, bool, String)> {
    entries
        .iter()
        .map(|e| match e {
            MenuEntry::Item { id, checked, label } => (*id, *checked, label.clone()),
            MenuEntry::Separator => (usize::MAX, false, String::new()),
        })
        .collect()
}

#[test]
fn a_dead_hook_heads_the_menu_with_its_remedy() {
    let snapshot = Snapshot {
        indicator: Indicator::Broken(Breakage::HookGone),
        app: Some("notepad.exe".into()),
        mode_is_vietnamese: true,
        app_excluded: false,
        auto_fix: true,
    };
    let entries = labels(&menu_entries(&snapshot, false, false));
    assert_eq!(entries[0].0, 0);
    assert!(entries[0].2.contains("NOT RUNNING"));
    assert_eq!(entries[1].0, Command::ReinstallHook.id());
    assert_eq!(entries[2].0, usize::MAX);
    assert_eq!(entries[3], (Command::ToggleMode.id(), true, "Vietnamese input".into()));
    assert_eq!(entries[4], (Command::ToggleApp.id(), true, "Vietnamese in notepad.exe".into()));
    assert_eq!(entries.last().unwrap().0, Command::Quit.id());
}

#[test]
fn a_working_menu_has_no_breakage_lines() {
    let snapshot = Snapshot {
        indicator: Indicator::ExcludedApp,
        app: None,
        mode_is_vietnamese: true,
        app_excluded: true,
        auto_fix: false,
    };
    let entries = labels(&menu_entries(&snapshot, true, false));
    assert_eq!(entries.len(), 13);
    assert_eq!(entries[1], (Command::ToggleApp.id(), false, "Vietnamese in this app".into()));
    assert_eq!(entries[2], (Command::AutoFix.id(), false, "Auto-fix English words".into()));
    assert_eq!(entries[4], (Command::StartAtLogin.id(), true, "Start at login".into()));
}
