use glowkey::editing::{
    normalize_exe_name, normalize_word_keys, preference_label, upsert_macro, upsert_word_override,
    validate_macro, Tab,
};
use glowkey::settings::{Macro, WordOverride, WordPreference};

#[test]
fn normalize_exe_name_trims_and_lowercases() {
    assert_eq!(normalize_exe_name("  Code.EXE  "), Some("code.exe".into()));
    assert_eq!(normalize_exe_name("   "), None);
    assert_eq!(normalize_exe_name(""), None);
}

#[test]
fn normalize_word_keys_trims_and_lowercases() {
    assert_eq!(normalize_word_keys("  CATS "), Some("cats".into()));
    assert_eq!(normalize_word_keys(""), None);
}

#[test]
fn validate_macro_rejects_blank_fields() {
    assert_eq!(validate_macro("  ", "x"), None);
    assert_eq!(validate_macro("vn", "  "), None);
    assert_eq!(validate_macro(" vn ", " Việt Nam "), Some(("vn".into(), "Việt Nam".into())));
}

#[test]
fn upsert_macro_appends_new_shortcut() {
    let mut macros = Vec::new();
    upsert_macro(&mut macros, "vn".into(), "Việt Nam".into(), None);
    assert_eq!(macros.len(), 1);
    assert_eq!(macros[0].shortcut, "vn");
}

#[test]
fn upsert_macro_replaces_case_insensitive_duplicate_instead_of_adding() {
    let mut macros = vec![Macro { shortcut: "VN".into(), expansion: "old".into() }];
    upsert_macro(&mut macros, "vn".into(), "Việt Nam".into(), None);
    assert_eq!(macros.len(), 1);
    assert_eq!(macros[0].expansion, "Việt Nam");
}

#[test]
fn upsert_macro_with_edit_index_replaces_that_entry_even_if_shortcut_changed() {
    let mut macros = vec![
        Macro { shortcut: "vn".into(), expansion: "Việt Nam".into() },
        Macro { shortcut: "us".into(), expansion: "United States".into() },
    ];
    upsert_macro(&mut macros, "vnm".into(), "Việt Nam".into(), Some(0));
    assert_eq!(macros.len(), 2);
    assert_eq!(macros[0].shortcut, "vnm");
    assert_eq!(macros[1].shortcut, "us");
}

#[test]
fn upsert_word_override_replaces_existing_key_instead_of_duplicating() {
    let mut overrides = vec![WordOverride { keys: "cats".into(), prefer: WordPreference::Raw }];
    upsert_word_override(&mut overrides, "cats".into(), WordPreference::Vietnamese, None);
    assert_eq!(overrides.len(), 1);
    assert_eq!(overrides[0].prefer, WordPreference::Vietnamese);
}

#[test]
fn upsert_word_override_edit_index_updates_in_place() {
    let mut overrides = vec![WordOverride { keys: "cats".into(), prefer: WordPreference::Raw }];
    upsert_word_override(&mut overrides, "cats2".into(), WordPreference::Vietnamese, Some(0));
    assert_eq!(overrides.len(), 1);
    assert_eq!(overrides[0].keys, "cats2");
    assert_eq!(overrides[0].prefer, WordPreference::Vietnamese);
}

#[test]
fn an_out_of_range_edit_index_falls_back_to_matching() {
    let mut overrides = vec![WordOverride { keys: "cats".into(), prefer: WordPreference::Raw }];
    upsert_word_override(&mut overrides, "dogs".into(), WordPreference::Raw, Some(7));
    assert_eq!(overrides.len(), 2);
    assert_eq!(overrides[1].keys, "dogs");
}

#[test]
fn the_tabs_are_the_four_the_macos_window_has() {
    let tabs: Vec<Tab> = Tab::all(false).into_iter().map(|(tab, _)| tab).collect();
    assert_eq!(tabs, vec![Tab::General, Tab::Typing, Tab::Corrections, Tab::Apps]);
    for vietnamese in [false, true] {
        for (tab, title) in Tab::all(vietnamese) {
            assert!(!title.trim().is_empty(), "{tab:?} has no title");
        }
    }
}

#[test]
fn a_word_decision_is_named_the_same_on_both_platforms() {
    assert_eq!(preference_label(WordPreference::Raw, false), "Keep as typed");
    assert_eq!(preference_label(WordPreference::Vietnamese, true), "Giữ tiếng Việt");
}
