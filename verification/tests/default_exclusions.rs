use glowkey::default_exclusions::{is_chromium_app, is_terminal, macos, windows};

#[test]
fn every_terminal_is_also_a_shipped_default() {
    for id in macos::terminal_exclusions() {
        assert!(macos::default_exclusions().contains(&id), "{id} missing from defaults");
    }
    for id in windows::terminal_exclusions() {
        assert!(windows::default_exclusions().contains(&id), "{id} missing from defaults");
    }
}

#[test]
fn terminals_are_told_apart_from_editors() {
    assert!(is_terminal(macos::terminal_exclusions()[0]));
    assert!(!is_terminal("com.example.definitely-not-a-terminal"));
    assert!(
        macos::default_exclusions().iter().any(|id| !is_terminal(id)),
        "the defaults are all terminals: the editor entries went missing"
    );
}

#[test]
fn the_macos_table_still_names_the_apps_existing_settings_files_do() {
    for id in [
        "com.apple.Terminal",
        "com.googlecode.iterm2",
        "com.apple.dt.Xcode",
        "com.microsoft.VSCode",
        "com.mitchellh.ghostty",
    ] {
        assert!(macos::default_exclusions().contains(&id), "{id} left the defaults");
    }
    assert!(is_terminal("com.mitchellh.ghostty"));
    assert!(!is_terminal("com.microsoft.VSCode"));
    assert!(is_chromium_app("com.google.Chrome"));
    assert!(is_chromium_app("com.google.Chrome.canary"));
    assert!(!is_chromium_app("com.apple.Safari"));
}

#[test]
fn the_windows_table_is_lowercased_executable_names() {
    for id in windows::default_exclusions().iter().chain(windows::chromium_app_prefixes().iter()) {
        assert_eq!(*id, id.to_ascii_lowercase(), "{id} is not lowercased");
        assert!(id.ends_with(".exe"), "{id} is not an executable name");
    }
    assert!(windows::is_terminal("windowsterminal.exe"));
    assert!(!windows::is_terminal("code.exe"));
    assert!(windows::is_chromium_app("chrome.exe"));
    assert!(!windows::is_chromium_app("firefox.exe"));
}

#[test]
fn chromium_browsers_are_classified_by_prefix() {
    assert!(is_chromium_app("com.google.Chrome"));
    assert!(is_chromium_app("com.google.Chrome.canary"));
    assert!(is_chromium_app("com.microsoft.edgemac"));
    assert!(is_chromium_app("com.brave.Browser"));
    assert!(!is_chromium_app("com.apple.Safari"));
    assert!(!is_chromium_app("org.mozilla.firefox"));
    assert!(!is_chromium_app("com.apple.TextEdit"));
}
