use glowkey::windows::elevation::Reach;
use glowkey::windows::foreground::{file_name_of, Foreground};

#[test]
fn a_full_path_becomes_a_lowercased_file_name() {
    assert_eq!(file_name_of(r"C:\Program Files\Microsoft VS Code\Code.exe"), "code.exe");
    assert_eq!(
        file_name_of(r"C:\Windows\System32\WindowsPowerShell\v1.0\powershell.exe"),
        "powershell.exe"
    );
}

#[test]
fn the_result_matches_how_the_shipped_table_spells_it() {
    let resolved = file_name_of(r"C:\Program Files\WindowsApps\WindowsTerminal.exe");
    assert!(glowkey::default_exclusions::windows::is_terminal(&resolved));
}

#[test]
fn a_long_path_prefix_does_not_confuse_it() {
    assert_eq!(file_name_of(r"\\?\C:\Windows\System32\cmd.exe"), "cmd.exe");
}

#[test]
fn a_bare_name_survives() {
    assert_eq!(file_name_of("Notepad.exe"), "notepad.exe");
    assert_eq!(file_name_of(""), "");
    assert_eq!(file_name_of("C:/tools/Vim.EXE"), "vim.exe");
}

#[test]
fn an_empty_app_name_reads_as_unknown() {
    let mut fg = Foreground::new();
    assert_eq!(fg.current(), None);
    assert_eq!(fg.reach(), Reach::Unknown);
    fg.update(String::new(), 0, Reach::Unknown);
    assert_eq!(fg.current(), None);
}

#[test]
fn the_layout_falls_back_before_the_first_notification() {
    let mut fg = Foreground::new();
    assert_eq!(fg.keyboard_layout(), None);
    fg.update("code.exe".into(), 0x0409, Reach::Reachable);
    assert_eq!(fg.keyboard_layout(), Some(0x0409));
}

#[test]
fn an_unchanged_window_is_not_a_change_but_an_elevated_copy_is() {
    let mut fg = Foreground::new();
    assert!(fg.update("cmd.exe".into(), 1, Reach::Reachable));
    assert!(!fg.update("cmd.exe".into(), 1, Reach::Reachable));
    assert!(fg.update("cmd.exe".into(), 1, Reach::BlockedByElevation));
    assert_eq!(fg.current(), Some("cmd.exe".to_string()));
    assert_eq!(fg.reach(), Reach::BlockedByElevation);
}
