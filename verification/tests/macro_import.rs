use glowkey::macos::tap_state::TapState;
use glowkey::macro_import::{
    import_macros, import_problem, imported_notice, looks_like_json, macro_conflicts,
    problem_notice, ImportProblem, MacroConflict, MAX_TABLE_BYTES,
};
use glowkey::settings::{Macro, Settings};

fn m(s: &str, e: &str) -> Macro {
    Macro { shortcut: s.into(), expansion: e.into() }
}

#[test]
fn existing_shortcuts_are_skipped_or_replaced() {
    let mut table = vec![m("vn", "Việt Nam")];
    let rows = vec![m("VN", "Viet Nam"), m("hn", "Hà Nội"), m("hn", "Ha Noi")];
    assert_eq!(macro_conflicts(&table, &rows), 1);
    let (added, skipped) = import_macros(&mut table, &rows, MacroConflict::Skip);
    assert_eq!((added, skipped), (1, 2));
    assert_eq!(table.len(), 2);
    assert_eq!(table[0].expansion, "Việt Nam");
    assert_eq!(table[1].expansion, "Hà Nội");

    let mut table = vec![m("vn", "Việt Nam")];
    let (added, skipped) = import_macros(&mut table, &rows, MacroConflict::Replace);
    assert_eq!((added, skipped), (3, 0));
    assert_eq!(table.len(), 2);
    assert_eq!(table[0].shortcut, "VN");
    assert_eq!(table[1].expansion, "Ha Noi");
}

#[test]
fn an_import_through_the_tap_saves() {
    let mut state = TapState::new(&Settings::default());
    assert_eq!(state.macro_conflicts(&vec![m("x", "y")]), 0);
    assert_eq!(state.import_macros_and_save(&vec![m("x", "y")], MacroConflict::Skip), (1, 0));
    assert!(state.has_macro("X"));
    assert!(state.take_save().is_some());
}

#[test]
fn an_import_stops_for_each_problem_in_order() {
    assert_eq!(import_problem(Some(MAX_TABLE_BYTES + 1), Some("a:b"), false, 1), Some(ImportProblem::TooLarge));
    assert_eq!(import_problem(Some(10), None, false, 0), Some(ImportProblem::Unreadable));
    assert_eq!(import_problem(None, Some("x"), true, 3), Some(ImportProblem::LegacyViqr));
    assert_eq!(import_problem(None, Some("  [ {"), false, 0), Some(ImportProblem::NoMacrosInJson));
    assert_eq!(import_problem(None, Some("nothing"), false, 0), Some(ImportProblem::NoMacrosInLines));
    assert_eq!(import_problem(Some(3), Some("a:b"), false, 1), None);
    assert!(looks_like_json("\n\t[1]"));
    assert!(!looks_like_json("   "));
}

#[test]
fn the_user_is_told_what_an_import_did() {
    assert_eq!(
        imported_notice(3, 0, false),
        ("Imported 3 macros.".to_string(), String::new())
    );
    assert_eq!(
        imported_notice(1, 2, false),
        ("Imported 1 macros.".to_string(), "2 skipped — those shortcuts already exist.".to_string())
    );
    assert_eq!(imported_notice(1, 2, true).1, "Bỏ qua 2 — các chữ viết tắt đó đã có.");
    assert_eq!(problem_notice(ImportProblem::TooLarge, false).0, "That file is too large.");
    assert_eq!(problem_notice(ImportProblem::Unreadable, false).1, "");
}
