//! macOS application identities: bundle identifiers, as `NSWorkspace` reports
//! them.
use vstd::prelude::*;

verus! {

/// Terminal applications. Synthetic backspaces cannot delete inside a PTY (the
/// shell owns line editing), so Vietnamese in a terminal always produces
/// garbage.
pub open spec fn spec_terminal_exclusions() -> Seq<Seq<char>> {
    seq![
        "com.apple.Terminal"@,
        "com.googlecode.iterm2"@,
        "dev.warp.Warp-Stable"@,
        "dev.warp.Warp-Preview"@,
        "net.kovidgoyal.kitty"@,
        "com.github.wez.wezterm"@,
        "com.mitchellh.ghostty"@,
        "org.alacritty"@,
        "co.zeit.hyper"@,
    ]
}

/// Applications excluded on first run — terminals and editors.
pub open spec fn spec_default_exclusions() -> Seq<Seq<char>> {
    seq![
        "com.apple.Terminal"@,
        "com.googlecode.iterm2"@,
        "com.apple.dt.Xcode"@,
        "com.microsoft.VSCode"@,
        "com.jetbrains.intellij"@,
        "com.jetbrains.pycharm"@,
        "com.jetbrains.WebStorm"@,
        "dev.warp.Warp-Stable"@,
        "dev.warp.Warp-Preview"@,
        "net.kovidgoyal.kitty"@,
        "com.github.wez.wezterm"@,
        "com.mitchellh.ghostty"@,
        "org.alacritty"@,
        "co.zeit.hyper"@,
    ]
}

/// Chromium-family browsers, matched by bundle-identifier prefix.
pub open spec fn spec_chromium_app_prefixes() -> Seq<Seq<char>> {
    seq![
        "com.google.Chrome"@,
        "com.microsoft.edgemac"@,
        "org.chromium.Chromium"@,
        "com.brave.Browser"@,
        "com.vivaldi.Vivaldi"@,
        "com.operasoftware.Opera"@,
        "company.thebrowser.Browser"@,
    ]
}

/// The terminal table.
pub fn terminal_exclusions() -> (v: Vec<&'static str>)
    ensures
        v@.map_values(|s: &str| s@) == spec_terminal_exclusions(),
{
    let v = vec![
        "com.apple.Terminal",
        "com.googlecode.iterm2",
        "dev.warp.Warp-Stable",
        "dev.warp.Warp-Preview",
        "net.kovidgoyal.kitty",
        "com.github.wez.wezterm",
        "com.mitchellh.ghostty",
        "org.alacritty",
        "co.zeit.hyper",
    ];
    assert(v@.map_values(|s: &str| s@) =~= spec_terminal_exclusions());
    v
}

/// The first-run exclusion table.
pub fn default_exclusions() -> (v: Vec<&'static str>)
    ensures
        v@.map_values(|s: &str| s@) == spec_default_exclusions(),
{
    let v = vec![
        "com.apple.Terminal",
        "com.googlecode.iterm2",
        "com.apple.dt.Xcode",
        "com.microsoft.VSCode",
        "com.jetbrains.intellij",
        "com.jetbrains.pycharm",
        "com.jetbrains.WebStorm",
        "dev.warp.Warp-Stable",
        "dev.warp.Warp-Preview",
        "net.kovidgoyal.kitty",
        "com.github.wez.wezterm",
        "com.mitchellh.ghostty",
        "org.alacritty",
        "co.zeit.hyper",
    ];
    assert(v@.map_values(|s: &str| s@) =~= spec_default_exclusions());
    v
}

/// The Chromium-family prefix table.
pub fn chromium_app_prefixes() -> (v: Vec<&'static str>)
    ensures
        v@.map_values(|s: &str| s@) == spec_chromium_app_prefixes(),
{
    let v = vec![
        "com.google.Chrome",
        "com.microsoft.edgemac",
        "org.chromium.Chromium",
        "com.brave.Browser",
        "com.vivaldi.Vivaldi",
        "com.operasoftware.Opera",
        "company.thebrowser.Browser",
    ];
    assert(v@.map_values(|s: &str| s@) =~= spec_chromium_app_prefixes());
    v
}

/// Whether this bundle identifier is a known terminal.
pub fn is_terminal(app_id: &str) -> (r: bool)
    ensures
        r == spec_terminal_exclusions().contains(app_id@),
{
    super::table_contains(&terminal_exclusions(), app_id)
}

/// Whether this bundle identifier is a Chromium-family browser: a prefix
/// match, so a channel-suffixed identifier (`com.google.Chrome.canary`) is
/// Chrome too.
pub fn is_chromium_app(app_id: &str) -> (r: bool)
    ensures
        r == super::matches_any_prefix(spec_chromium_app_prefixes(), app_id@),
{
    super::table_has_prefix_of(&chromium_app_prefixes(), app_id)
}

/// Every terminal is also a shipped default, so a hotkey that may only
/// suspend a terminal's exclusion can never make a terminal permanently
/// un-excludable by accident.
pub proof fn every_terminal_is_a_default()
    ensures
        forall|i: int|
            0 <= i < spec_terminal_exclusions().len() ==> spec_default_exclusions().contains(
                #[trigger] spec_terminal_exclusions()[i],
            ),
{
    let t = spec_terminal_exclusions();
    let d = spec_default_exclusions();
    assert(d[0] == t[0]);
    assert(d[1] == t[1]);
    assert(d[7] == t[2]);
    assert(d[8] == t[3]);
    assert(d[9] == t[4]);
    assert(d[10] == t[5]);
    assert(d[11] == t[6]);
    assert(d[12] == t[7]);
    assert(d[13] == t[8]);
}

} // verus!
