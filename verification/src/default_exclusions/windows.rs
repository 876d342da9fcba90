//! Windows application identities: the executable's file name, lowercased.
use vstd::prelude::*;

verus! {

/// Terminal applications on Windows.
pub open spec fn spec_terminal_exclusions() -> Seq<Seq<char>> {
    seq![
        "windowsterminal.exe"@,
        "conhost.exe"@,
        "powershell.exe"@,
        "pwsh.exe"@,
        "cmd.exe"@,
        "wsl.exe"@,
        "alacritty.exe"@,
        "wezterm-gui.exe"@,
        "mintty.exe"@,
    ]
}

/// Applications excluded on first run on Windows — terminals, then editors.
pub open spec fn spec_default_exclusions() -> Seq<Seq<char>> {
    seq![
        "windowsterminal.exe"@,
        "conhost.exe"@,
        "powershell.exe"@,
        "pwsh.exe"@,
        "cmd.exe"@,
        "wsl.exe"@,
        "alacritty.exe"@,
        "wezterm-gui.exe"@,
        "mintty.exe"@,
        "code.exe"@,
        "devenv.exe"@,
        "idea64.exe"@,
        "pycharm64.exe"@,
        "webstorm64.exe"@,
        "sublime_text.exe"@,
        "nvim.exe"@,
        "vim.exe"@,
    ]
}

/// Chromium-family browsers on Windows.
pub open spec fn spec_chromium_app_prefixes() -> Seq<Seq<char>> {
    seq![
        "chrome.exe"@,
        "msedge.exe"@,
        "chromium.exe"@,
        "brave.exe"@,
        "vivaldi.exe"@,
        "opera.exe"@,
        "arc.exe"@,
    ]
}

/// The terminal table.
pub fn terminal_exclusions() -> (v: Vec<&'static str>)
    ensures
        v@.map_values(|s: &str| s@) == spec_terminal_exclusions(),
{
    let v = vec![
        "windowsterminal.exe",
        "conhost.exe",
        "powershell.exe",
        "pwsh.exe",
        "cmd.exe",
        "wsl.exe",
        "alacritty.exe",
        "wezterm-gui.exe",
        "mintty.exe",
    ];
    assert(v@.map_values(|s: &str| s@) =~= spec_terminal_exclusions());
    v
}

/// The first-run exclusion table.
pub fn default_exclusions() -> (v: Vec<&'static str>)
    ensures
        v@.map_values(|s: &str| s@) == spec_default_exclusions(),
{
    let v = vec![
        "windowsterminal.exe",
        "conhost.exe",
        "powershell.exe",
        "pwsh.exe",
        "cmd.exe",
        "wsl.exe",
        "alacritty.exe",
        "wezterm-gui.exe",
        "mintty.exe",
        "code.exe",
        "devenv.exe",
        "idea64.exe",
        "pycharm64.exe",
        "webstorm64.exe",
        "sublime_text.exe",
        "nvim.exe",
        "vim.exe",
    ];
    assert(v@.map_values(|s: &str| s@) =~= spec_default_exclusions());
    v
}

/// The Chromium-family table.
pub fn chromium_app_prefixes() -> (v: Vec<&'static str>)
    ensures
        v@.map_values(|s: &str| s@) == spec_chromium_app_prefixes(),
{
    let v = vec![
        "chrome.exe",
        "msedge.exe",
        "chromium.exe",
        "brave.exe",
        "vivaldi.exe",
        "opera.exe",
        "arc.exe",
    ];
    assert(v@.map_values(|s: &str| s@) =~= spec_chromium_app_prefixes());
    v
}

/// Whether this executable name is a known terminal.
pub fn is_terminal(app_id: &str) -> (r: bool)
    ensures
        r == spec_terminal_exclusions().contains(app_id@),
{
    super::table_contains(&terminal_exclusions(), app_id)
}

/// Whether this executable name is a Chromium-family browser.
pub fn is_chromium_app(app_id: &str) -> (r: bool)
    ensures
        r == super::matches_any_prefix(spec_chromium_app_prefixes(), app_id@),
{
    super::table_has_prefix_of(&chromium_app_prefixes(), app_id)
}

/// Every Windows terminal is also a shipped default.
pub proof fn every_terminal_is_a_default()
    ensures
        forall|i: int|
            0 <= i < spec_terminal_exclusions().len() ==> spec_default_exclusions().contains(
                #[trigger] spec_terminal_exclusions()[i],
            ),
{
    let t = spec_terminal_exclusions();
    let d = spec_default_exclusions();
    assert forall|i: int| 0 <= i < t.len() implies d.contains(#[trigger] t[i]) by {
        assert(d[i] == t[i]);
    }
}

} // verus!
