//! The macOS menu bar: its glyph, the hotkey as the menu shows it, the
//! readable name of an application, and the menu's items. AppKit builds the
//! status item from what is decided here.
use vstd::prelude::*;
use vstd::string::StringExecFns;

use crate::settings::{HotkeyPreset, InputMode};
use crate::text::{chars_of, string_of, to_uppercase, uppercase};
use super::tap_state::TapState;

verus! {

/// What the menu bar shows: a title and whether it is dimmed.
#[derive(Clone, Copy, Debug)]
pub struct Glyph {
    pub title: &'static str,
    pub dimmed: bool,
}

/// The glyph for the live state. A dead tap outranks the mode (`⚠`); `VI`
/// when Vietnamese is the mode, dimmed when it is not in effect in the
/// application in front; `EN` otherwise.
pub open spec fn spec_glyph_title(tap_dead: bool, vietnamese: bool) -> Seq<char> {
    if tap_dead { "⚠"@ } else if vietnamese { "VI"@ } else { "EN"@ }
}

/// The glyph for a dead-or-alive tap, a mode, and whether keys are being
/// transformed in the application in front.
pub fn glyph(tap_dead: bool, vietnamese: bool, active: bool) -> (r: Glyph)
    ensures
        r.title@ == spec_glyph_title(tap_dead, vietnamese),
        r.dimmed == (vietnamese && !active),
{
    let title = if tap_dead { "⚠" } else if vietnamese { "VI" } else { "EN" };
    Glyph { title, dimmed: vietnamese && !active }
}

/// The glyph the menu bar should show now, for the tap's state.
pub fn refresh_glyph(state: &TapState, tap_dead: bool) -> (r: Glyph)
    ensures
        r.title@ == spec_glyph_title(tap_dead, state.spec_session().spec_mode() == InputMode::Vietnamese),
        r.dimmed == (state.spec_session().spec_mode() == InputMode::Vietnamese && !state.spec_session().spec_is_active()),
{
    let vietnamese = state.session().mode() == InputMode::Vietnamese;
    glyph(tap_dead, vietnamese, state.session().is_active())
}

/// The toggle hotkey as the menu and the Settings window name it.
pub open spec fn spec_hotkey_display(preset: HotkeyPreset) -> Seq<char> {
    match preset {
        HotkeyPreset::CtrlShiftSpace => "⌃⇧Space"@,
        HotkeyPreset::CtrlSpace => "⌃Space"@,
        HotkeyPreset::OptionSpace => "⌥Space"@,
        HotkeyPreset::CtrlShiftZ => "⌃⇧Z"@,
        HotkeyPreset::Custom { control, shift, option, key_char, .. } => (if control { seq!['⌃'] } else {
            Seq::empty()
        }) + (if option { seq!['⌥'] } else { Seq::empty() }) + (if shift { seq!['⇧'] } else { Seq::empty() })
            + (if key_char == ' ' { "Space"@ } else { seq![key_char] }),
    }
}

/// The toggle hotkey as the menu and the Settings window name it.
pub fn hotkey_display(preset: HotkeyPreset) -> (r: String)
    ensures
        r@ == spec_hotkey_display(preset),
{
    match preset {
        HotkeyPreset::CtrlShiftSpace => "⌃⇧Space".to_owned(),
        HotkeyPreset::CtrlSpace => "⌃Space".to_owned(),
        HotkeyPreset::OptionSpace => "⌥Space".to_owned(),
        HotkeyPreset::CtrlShiftZ => "⌃⇧Z".to_owned(),
        HotkeyPreset::Custom { control, shift, option, key_char, .. } => {
            let mut out: Vec<char> = Vec::new();
            if control {
                out.push('⌃');
            }
            if option {
                out.push('⌥');
            }
            if shift {
                out.push('⇧');
            }
            let ghost mods = out@;
            if key_char == ' ' {
                proof {
                    reveal_strlit("Space");
                }
                out.push('S');
                out.push('p');
                out.push('a');
                out.push('c');
                out.push('e');
                assert(out@ =~= mods + "Space"@);
            } else {
                out.push(key_char);
                assert(out@ =~= mods + seq![key_char]);
            }
            assert(out@ =~= spec_hotkey_display(preset));
            string_of(&out)
        },
    }
}

/// What follows the last `.` of an identifier (all of it when there is none).
pub open spec fn leaf(s: Seq<char>) -> Seq<char>
    decreases s.len(),
{
    if s.len() == 0 {
        Seq::empty()
    } else if s.last() == '.' {
        Seq::empty()
    } else {
        leaf(s.drop_last()).push(s.last())
    }
}

/// A readable name for a bundle identifier with no display name: its last
/// component, first character uppercased (`com.mitchellh.ghostty` reads
/// `Ghostty`); the identifier itself when that component is empty.
pub open spec fn spec_readable(bundle_id: Seq<char>) -> Seq<char> {
    let l = leaf(bundle_id);
    if l.len() == 0 { bundle_id } else { uppercase(seq![l[0]]) + l.drop_first() }
}

/// A readable name for a bundle identifier.
pub fn readable_identifier(bundle_id: &str) -> (r: String)
    ensures
        r@ == spec_readable(bundle_id@),
{
    let chars = chars_of(bundle_id);
    let mut tail: Vec<char> = Vec::new();
    for i in 0..chars.len()
        invariant
            chars@ == bundle_id@,
            tail@ == leaf(chars@.take(i as int)),
    {
        let c = chars[i];
        assert(chars@.take(i + 1).drop_last() =~= chars@.take(i as int));
        assert(chars@.take(i + 1).last() == c);
        if c == '.' {
            tail = Vec::new();
            assert(tail@ =~= leaf(chars@.take(i + 1)));
        } else {
            tail.push(c);
        }
    }
    assert(chars@.take(chars.len() as int) =~= chars@);
    if tail.len() == 0 {
        return bundle_id.to_owned();
    }
    let mut first: Vec<char> = Vec::new();
    first.push(tail[0]);
    let first_str = string_of(&first);
    assert(first_str@ =~= seq![tail@[0]]);
    let mut r = to_uppercase(first_str.as_str());
    let mut rest: Vec<char> = Vec::new();
    for i in 1..tail.len()
        invariant
            1 <= tail@.len(),
            rest@ == tail@.subrange(1, i as int),
    {
        rest.push(tail[i]);
        assert(tail@.subrange(1, i + 1) =~= tail@.subrange(1, i as int).push(tail@[i as int]));
    }
    let rest_str = string_of(&rest);
    r.append(rest_str.as_str());
    assert(tail@.drop_first() =~= tail@.subrange(1, tail@.len() as int));
    r
}

/// A menu action.
#[derive(Clone, Copy, Debug, PartialEq, Eq, Structural)]
pub enum MenuAction {
    Disabled,
    OpenAccessibilitySettings,
    ToggleCurrentApp,
    ToggleMode,
    ToggleAutoFix,
    ToggleLaunchAtLogin,
    ResetEngine,
    ClipboardRemoveTones,
    ClipboardUppercase,
    ClipboardLowercase,
    RevealLog,
    OpenSettings,
    QuickGuide,
    About,
    Quit,
}

/// One menu line: its title, action (`None` for a disabled line), check mark
/// and key equivalent; or a separator.
pub enum MenuItem {
    Item { title: String, action: MenuAction, checked: bool, key: &'static str },
    Separator,
}

/// What a menu line says.
pub enum MenuItemModel {
    Item { title: Seq<char>, action: MenuAction, checked: bool, key: Seq<char> },
    Separator,
}

impl View for MenuItem {
    type V = MenuItemModel;

    open spec fn view(&self) -> MenuItemModel {
        match self {
            MenuItem::Item { title, action, checked, key } => MenuItemModel::Item {
                title: title@,
                action: *action,
                checked: *checked,
                key: key@,
            },
            MenuItem::Separator => MenuItemModel::Separator,
        }
    }
}

/// The views of a menu.
pub open spec fn items_view(v: Seq<MenuItem>) -> Seq<MenuItemModel> {
    v.map_values(|e: MenuItem| e@)
}

/// A line in the chosen language.
pub open spec fn tr(vietnamese: bool, en: Seq<char>, vi: Seq<char>) -> Seq<char> {
    if vietnamese { vi } else { en }
}

/// The menu's header line: the state in the application in front.
pub open spec fn spec_header(excluded: bool, mode: InputMode, app_name: Seq<char>, vi: bool) -> Seq<char> {
    if excluded {
        tr(vi, "Excluded in "@, "Đã tắt trong "@) + app_name
    } else if mode == InputMode::Vietnamese {
        tr(vi, "Vietnamese"@, "Tiếng Việt"@)
    } else {
        tr(vi, "English"@, "Tiếng Anh"@)
    }
}

/// The per-application line.
pub open spec fn spec_app_toggle(excluded: bool, app_name: Seq<char>, vi: bool) -> Seq<char> {
    if excluded {
        tr(vi, "Enable for “"@, "Bật cho “"@) + app_name + "”"@
    } else {
        tr(vi, "Disable for “"@, "Tắt cho “"@) + app_name + "”"@
    }
}

/// The lines a dead tap puts first: the warning and the way to fix it.
pub open spec fn spec_dead_lines(tap_dead: bool, vi: bool) -> Seq<MenuItemModel> {
    if tap_dead {
        seq![
            MenuItemModel::Item {
                title: tr(vi, "⚠ Accessibility permission revoked — Vietnamese is off"@, "⚠ Đã thu hồi quyền Accessibility — tiếng Việt đang tắt"@),
                action: MenuAction::Disabled,
                checked: false,
                key: ""@,
            },
            MenuItemModel::Item {
                title: tr(vi, "Open System Settings…"@, "Mở Cài đặt hệ thống…"@),
                action: MenuAction::OpenAccessibilitySettings,
                checked: false,
                key: ""@,
            },
            MenuItemModel::Separator,
        ]
    } else {
        Seq::empty()
    }
}

/// A plain menu line.
pub open spec fn line(title: Seq<char>, action: MenuAction, checked: bool, key: Seq<char>) -> MenuItemModel {
    MenuItemModel::Item { title, action, checked, key }
}

/// The whole menu, from the state it describes.
pub open spec fn spec_menu(
    tap_dead: bool,
    app_name: Seq<char>,
    mode: InputMode,
    auto_fix: bool,
    excluded: bool,
    hotkey: Seq<char>,
    launch_at_login: bool,
    vi: bool,
) -> Seq<MenuItemModel> {
    spec_dead_lines(tap_dead, vi) + seq![
        line(spec_header(excluded, mode, app_name, vi), MenuAction::Disabled, false, ""@),
        MenuItemModel::Separator,
        line(spec_app_toggle(excluded, app_name, vi), MenuAction::ToggleCurrentApp, false, ""@),
        MenuItemModel::Separator,
        line(tr(vi, "Vietnamese input ("@, "Gõ tiếng Việt ("@) + hotkey + ")"@, MenuAction::ToggleMode, mode == InputMode::Vietnamese, ""@),
        line(tr(vi, "Auto-fix English words"@, "Tự động sửa từ tiếng Anh"@), MenuAction::ToggleAutoFix, auto_fix, ""@),
        MenuItemModel::Separator,
        line(tr(vi, "Open at login"@, "Khởi động cùng máy"@), MenuAction::ToggleLaunchAtLogin, launch_at_login, ""@),
        line(tr(vi, "Reset input (if stuck)"@, "Đặt lại bộ gõ (nếu bị kẹt)"@), MenuAction::ResetEngine, false, ""@),
        line(tr(vi, "Clipboard: remove tones"@, "Clipboard: bỏ dấu"@), MenuAction::ClipboardRemoveTones, false, ""@),
        line(tr(vi, "Clipboard: UPPERCASE"@, "Clipboard: CHỮ HOA"@), MenuAction::ClipboardUppercase, false, ""@),
        line(tr(vi, "Clipboard: lowercase"@, "Clipboard: chữ thường"@), MenuAction::ClipboardLowercase, false, ""@),
        MenuItemModel::Separator,
        line(tr(vi, "Reveal Log in Finder"@, "Mở nhật ký trong Finder"@), MenuAction::RevealLog, false, ""@),
        MenuItemModel::Separator,
        line(tr(vi, "Settings…"@, "Cài đặt…"@), MenuAction::OpenSettings, false, ","@),
        line(tr(vi, "Quick Guide…"@, "Hướng dẫn nhanh…"@), MenuAction::QuickGuide, false, ""@),
        line(tr(vi, "About GlowKey"@, "Giới thiệu GlowKey"@), MenuAction::About, false, ""@),
        line(tr(vi, "Quit GlowKey"@, "Thoát GlowKey"@), MenuAction::Quit, false, "q"@),
    ]
}

fn fixed(vi: bool, en: &str, vn: &str, action: MenuAction, checked: bool, key: &'static str) -> (r: MenuItem)
    ensures
        r@ == line(tr(vi, en@, vn@), action, checked, key@),
{
    MenuItem::Item { title: if vi { vn.to_owned() } else { en.to_owned() }, action, checked, key }
}

fn joined(vi: bool, en: &str, vn: &str, middle: &str, after: &str) -> (r: String)
    ensures
        r@ == tr(vi, en@, vn@) + middle@ + after@,
{
    let mut r = if vi { vn.to_owned() } else { en.to_owned() };
    r.append(middle);
    r.append(after);
    r
}

/// The menu's items for the state it describes: the application in front
/// (`app_name`), the mode, auto-fix, whether the application is excluded,
/// the toggle hotkey, whether GlowKey opens at login, and whether the tap is
/// dead (which puts the warning first).
pub fn menu_items(
    tap_dead: bool,
    app_name: &str,
    mode: InputMode,
    auto_fix: bool,
    excluded: bool,
    hotkey: HotkeyPreset,
    launch_at_login: bool,
    vi: bool,
) -> (r: Vec<MenuItem>)
    ensures
        items_view(r@) == spec_menu(tap_dead, app_name@, mode, auto_fix, excluded, spec_hotkey_display(hotkey), launch_at_login, vi),
{
    let mut r: Vec<MenuItem> = Vec::new();
    if tap_dead {
        r.push(fixed(vi, "⚠ Accessibility permission revoked — Vietnamese is off", "⚠ Đã thu hồi quyền Accessibility — tiếng Việt đang tắt", MenuAction::Disabled, false, ""));
        r.push(fixed(vi, "Open System Settings…", "Mở Cài đặt hệ thống…", MenuAction::OpenAccessibilitySettings, false, ""));
        r.push(MenuItem::Separator);
    }
    assert(items_view(r@) =~= spec_dead_lines(tap_dead, vi));
    proof {
        reveal_strlit("");
    }
    let header = if excluded {
        joined(vi, "Excluded in ", "Đã tắt trong ", app_name, "")
    } else if mode == InputMode::Vietnamese {
        if vi { "Tiếng Việt".to_owned() } else { "Vietnamese".to_owned() }
    } else {
        if vi { "Tiếng Anh".to_owned() } else { "English".to_owned() }
    };
    assert(header@ =~= spec_header(excluded, mode, app_name@, vi));
    r.push(MenuItem::Item { title: header, action: MenuAction::Disabled, checked: false, key: "" });
    r.push(MenuItem::Separator);
    let toggle = if excluded {
        joined(vi, "Enable for “", "Bật cho “", app_name, "”")
    } else {
        joined(vi, "Disable for “", "Tắt cho “", app_name, "”")
    };
    r.push(MenuItem::Item { title: toggle, action: MenuAction::ToggleCurrentApp, checked: false, key: "" });
    r.push(MenuItem::Separator);
    let shortcut = hotkey_display(hotkey);
    let mode_label = joined(vi, "Vietnamese input (", "Gõ tiếng Việt (", shortcut.as_str(), ")");
    r.push(MenuItem::Item { title: mode_label, action: MenuAction::ToggleMode, checked: mode == InputMode::Vietnamese, key: "" });
    r.push(fixed(vi, "Auto-fix English words", "Tự động sửa từ tiếng Anh", MenuAction::ToggleAutoFix, auto_fix, ""));
    r.push(MenuItem::Separator);
    r.push(fixed(vi, "Open at login", "Khởi động cùng máy", MenuAction::ToggleLaunchAtLogin, launch_at_login, ""));
    r.push(fixed(vi, "Reset input (if stuck)", "Đặt lại bộ gõ (nếu bị kẹt)", MenuAction::ResetEngine, false, ""));
    r.push(fixed(vi, "Clipboard: remove tones", "Clipboard: bỏ dấu", MenuAction::ClipboardRemoveTones, false, ""));
    r.push(fixed(vi, "Clipboard: UPPERCASE", "Clipboard: CHỮ HOA", MenuAction::ClipboardUppercase, false, ""));
    r.push(fixed(vi, "Clipboard: lowercase", "Clipboard: chữ thường", MenuAction::ClipboardLowercase, false, ""));
    r.push(MenuItem::Separator);
    r.push(fixed(vi, "Reveal Log in Finder", "Mở nhật ký trong Finder", MenuAction::RevealLog, false, ""));
    r.push(MenuItem::Separator);
    r.push(fixed(vi, "Settings…", "Cài đặt…", MenuAction::OpenSettings, false, ","));
    r.push(fixed(vi, "Quick Guide…", "Hướng dẫn nhanh…", MenuAction::QuickGuide, false, ""));
    r.push(fixed(vi, "About GlowKey", "Giới thiệu GlowKey", MenuAction::About, false, ""));
    r.push(fixed(vi, "Quit GlowKey", "Thoát GlowKey", MenuAction::Quit, false, "q"));
    assert(items_view(r@) =~= spec_menu(tap_dead, app_name@, mode, auto_fix, excluded, spec_hotkey_display(hotkey), launch_at_login, vi));
    r
}

} // verus!
