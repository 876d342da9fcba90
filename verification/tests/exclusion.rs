use glowkey::default_exclusions::{macos, Platform};
use glowkey::exclusion::ExclusionList;
use glowkey::session::{ExclusionToggle, Session};
use glowkey::settings::{InputMode, Settings};

fn strings(v: &[&str]) -> Vec<String> {
    v.iter().map(|s| s.to_string()).collect()
}

#[test]
fn exclusion_list_merges_defaults_and_respects_tombstones() {
    let defaults = macos::default_exclusions();
    let kept = defaults[0];
    let missing = defaults[1];
    let tombstoned = defaults[defaults.len() - 1];
    assert_ne!(missing, tombstoned);
    let list = ExclusionList::from_saved(&strings(&[kept]), &strings(&[tombstoned]), &defaults);
    assert!(list.is_excluded(kept), "the user's own entry survives");
    assert!(list.is_excluded(missing), "a default absent from the file is merged in");
    assert!(!list.is_excluded(tombstoned), "a deliberately removed default is not resurrected");
}

#[test]
fn removing_a_default_leaves_a_tombstone_and_adding_it_back_wins_over_it() {
    let defaults = macos::default_exclusions();
    let mut list = ExclusionList::from_saved(&Vec::new(), &Vec::new(), &defaults);
    list.remove(defaults[0]);
    assert!(!list.is_excluded(defaults[0]));
    assert_eq!(list.removed_default_ids(), vec![defaults[0].to_string()]);
    list.remove("com.example.notadefault");
    assert_eq!(list.removed_default_ids().len(), 1, "only a default gets a tombstone");
    list.add(defaults[0]);
    assert!(list.is_excluded(defaults[0]), "presence wins over the tombstone");
    let reloaded = ExclusionList::from_saved(&list.ids(), &list.removed_default_ids(), &defaults);
    assert!(reloaded.is_excluded(defaults[0]));
    list.add(defaults[0]);
    assert_eq!(
        list.ids().iter().filter(|id| id.as_str() == defaults[0]).count(),
        1,
        "adding twice lists it once"
    );
}

#[test]
fn terminal_toggle_via_hotkey_is_session_only() {
    let mut session = Session::from_settings(&Settings::default(), Platform::MacOs);
    session.set_frontmost_app("com.mitchellh.ghostty");
    assert!(!session.is_active(), "excluded by default");
    let outcome = session.toggle_app_exclusion("com.mitchellh.ghostty");
    assert_eq!(outcome, ExclusionToggle::EnabledSessionOnly);
    assert!(session.is_active(), "live for the session");
    let snapshot = session.snapshot();
    assert!(
        snapshot.exclusions.iter().any(|id| id == "com.mitchellh.ghostty"),
        "the persisted exclusion must survive a session-only toggle"
    );
    assert_eq!(session.toggle_app_exclusion("com.mitchellh.ghostty"), ExclusionToggle::Excluded);
    assert!(!session.is_active());
}

#[test]
fn an_ordinary_app_toggles_persistently() {
    let mut session = Session::from_settings(&Settings::default(), Platform::MacOs);
    session.set_frontmost_app("com.apple.TextEdit");
    assert!(session.is_active());
    assert_eq!(session.toggle_app_exclusion("com.apple.TextEdit"), ExclusionToggle::Excluded);
    assert!(!session.is_active());
    assert!(session.snapshot().exclusions.iter().any(|id| id == "com.apple.TextEdit"));
    assert_eq!(session.toggle_app_exclusion("com.apple.TextEdit"), ExclusionToggle::Enabled);
    assert!(session.is_active());
}

#[test]
fn an_unknown_application_is_not_transformed() {
    let mut session = Session::from_settings(&Settings::default(), Platform::Windows);
    assert!(!session.is_active());
    session.set_frontmost_app("notepad.exe");
    assert!(session.is_active());
    assert_eq!(session.toggle_mode(), InputMode::English);
    assert!(!session.is_active());
}

#[test]
fn the_list_comes_out_in_order_each_id_once() {
    let defaults = vec!["zeta.exe", "alpha.exe"];
    let mut list = ExclusionList::from_saved(
        &strings(&["mid.exe", "beta.exe", "mid.exe"]),
        &strings(&["zeta.exe", "omega.exe", "omega.exe"]),
        &defaults,
    );
    assert_eq!(list.ids(), strings(&["alpha.exe", "beta.exe", "mid.exe"]));
    assert_eq!(list.removed_default_ids(), strings(&["omega.exe", "zeta.exe"]));
    list.add("aardvark.exe");
    list.add("beta.exe");
    assert_eq!(list.ids(), strings(&["aardvark.exe", "alpha.exe", "beta.exe", "mid.exe"]));
    list.remove("alpha.exe");
    assert_eq!(list.ids(), strings(&["aardvark.exe", "beta.exe", "mid.exe"]));
    assert_eq!(list.removed_default_ids(), strings(&["alpha.exe", "omega.exe", "zeta.exe"]));
}

#[test]
fn order_is_by_character_so_upper_case_sorts_first() {
    let list = ExclusionList::from_saved(&strings(&["b.exe", "B.exe", "a.exe", "é.exe"]), &Vec::new(), &Vec::new());
    let mut expected = strings(&["b.exe", "B.exe", "a.exe", "é.exe"]);
    expected.sort();
    assert_eq!(list.ids(), expected);
}
