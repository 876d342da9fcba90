//! The tray: its menu commands, what its menu lists, its tooltip's fit, its
//! glyph's colour, and when it must be repainted. The icon drawing and the
//! Win32 menu calls stay at the edge.
use vstd::prelude::*;

use crate::text::{decode_utf16, encode_utf16, is_high_surrogate, lemma_utf16_decodes, lemma_utf16_prefix, utf16};
use super::indicator::{Breakage, Indicator, spec_describe};
use crate::text::concat3;
use super::shell::Snapshot;

verus! {

/// A tray menu command. The numbers cross a C boundary as menu item ids, so
/// each is fixed here rather than left to a discriminant.
#[derive(Clone, Copy, Debug, PartialEq, Eq, Structural)]
pub enum Command {
    ToggleMode,
    ToggleApp,
    AutoFix,
    StartAtLogin,
    ClipboardRemoveTones,
    ClipboardUpper,
    ClipboardLower,
    RevealLog,
    Settings,
    ReinstallHook,
    Quit,
}

/// A command's menu item id. Zero is reserved for the non-clickable line.
pub open spec fn spec_id(c: Command) -> usize {
    match c {
        Command::ToggleMode => 1,
        Command::ToggleApp => 2,
        Command::AutoFix => 3,
        Command::StartAtLogin => 4,
        Command::ClipboardRemoveTones => 5,
        Command::ClipboardUpper => 6,
        Command::ClipboardLower => 7,
        Command::RevealLog => 8,
        Command::Settings => 9,
        Command::ReinstallHook => 10,
        Command::Quit => 11,
    }
}

impl Command {
    /// The menu item id.
    pub fn id(self) -> (r: usize)
        ensures
            r == spec_id(self),
    {
        match self {
            Command::ToggleMode => 1,
            Command::ToggleApp => 2,
            Command::AutoFix => 3,
            Command::StartAtLogin => 4,
            Command::ClipboardRemoveTones => 5,
            Command::ClipboardUpper => 6,
            Command::ClipboardLower => 7,
            Command::RevealLog => 8,
            Command::Settings => 9,
            Command::ReinstallHook => 10,
            Command::Quit => 11,
        }
    }

    /// The command a menu item id stands for, if any.
    pub fn from_id(id: usize) -> (r: Option<Command>)
        ensures
            match r {
                Some(c) => spec_id(c) == id,
                None => forall|c: Command| spec_id(c) != id,
            },
    {
        match id {
            1 => Some(Command::ToggleMode),
            2 => Some(Command::ToggleApp),
            3 => Some(Command::AutoFix),
            4 => Some(Command::StartAtLogin),
            5 => Some(Command::ClipboardRemoveTones),
            6 => Some(Command::ClipboardUpper),
            7 => Some(Command::ClipboardLower),
            8 => Some(Command::RevealLog),
            9 => Some(Command::Settings),
            10 => Some(Command::ReinstallHook),
            11 => Some(Command::Quit),
            _ => None,
        }
    }

    /// Every command, in menu-id order.
    pub fn all() -> (r: Vec<Command>)
        ensures
            r@.len() == 11,
            forall|c: Command| #[trigger] r@.contains(c),
            forall|i: int| 0 <= i < 11 ==> spec_id(#[trigger] r@[i]) == i + 1,
    {
        let r = vec![
            Command::ToggleMode,
            Command::ToggleApp,
            Command::AutoFix,
            Command::StartAtLogin,
            Command::ClipboardRemoveTones,
            Command::ClipboardUpper,
            Command::ClipboardLower,
            Command::RevealLog,
            Command::Settings,
            Command::ReinstallHook,
            Command::Quit,
        ];
        assert forall|c: Command| #[trigger] r@.contains(c) by {
            assert(r@[spec_id(c) - 1] == c);
        }
        r
    }
}

/// Distinct commands have distinct ids, and none is zero.
pub proof fn command_ids_are_unique(a: Command, b: Command)
    ensures
        spec_id(a) != 0,
        a != b ==> spec_id(a) != spec_id(b),
{
}

/// The tooltip's code units for a field of `capacity` units, NUL included:
/// the text's UTF-16 cut to `capacity - 1` units, less a high surrogate the
/// cut orphaned, then the NUL.
pub open spec fn spec_tooltip_units(text: Seq<char>, capacity: nat) -> Seq<u16> {
    let cut = if utf16(text).len() <= capacity - 1 {
        utf16(text)
    } else {
        utf16(text).take(capacity - 1)
    };
    let kept = if cut.len() > 0 && is_high_surrogate(cut.last()) { cut.drop_last() } else { cut };
    kept.push(0u16)
}

/// Fits a tooltip into a fixed field of `capacity` UTF-16 units, NUL
/// included, never splitting a surrogate pair.
pub fn tooltip_units(text: &str, capacity: usize) -> (r: Vec<u16>)
    requires
        capacity > 0,
    ensures
        r@ == spec_tooltip_units(text@, capacity as nat),
        r@.len() <= capacity,
        r@.last() == 0u16,
{
    let limit = capacity - 1;
    let all = encode_utf16(text);
    let mut units: Vec<u16> = Vec::new();
    let n = if all.len() < limit { all.len() } else { limit };
    for i in 0..n
        invariant
            n <= all@.len(),
            units@ == all@.take(i as int),
    {
        units.push(all[i]);
        assert(all@.take(i + 1) =~= all@.take(i as int).push(all@[i as int]));
    }
    assert(all@.take(n as int) =~= (if all@.len() <= limit { all@ } else { all@.take(limit as int) }));
    let len = units.len();
    if len > 0 && 0xD800 <= units[len - 1] && units[len - 1] < 0xDC00 {
        units.pop();
    }
    units.push(0);
    units
}

/// The glyph's ink: red for a breakage, grey for the dimmed excluded state,
/// near-white otherwise (for a dark taskbar).
pub open spec fn spec_glyph_colour(state: Indicator) -> (u8, u8, u8) {
    match state {
        Indicator::Broken(_) => (0xCC, 0x20, 0x20),
        Indicator::ExcludedApp => (0x80, 0x80, 0x80),
        _ => (0xF0, 0xF0, 0xF0),
    }
}

/// The colour a state's glyph is drawn in.
pub fn glyph_colour(state: Indicator) -> (r: (u8, u8, u8))
    ensures
        r == spec_glyph_colour(state),
{
    match state {
        Indicator::Broken(_) => (0xCC, 0x20, 0x20),
        _ => if state.dimmed() { (0x80, 0x80, 0x80) } else { (0xF0, 0xF0, 0xF0) },
    }
}

/// One channel scaled by a coverage out of 255, as premultiplied alpha needs.
pub open spec fn scale(channel: u8, coverage: u32) -> u32 {
    ((channel as u32) * coverage / 255) as u32
}

/// One icon pixel: the glyph's coverage (its low byte; the text was drawn
/// white on black) becomes the alpha, and each channel of `colour` is
/// premultiplied by it, packed as BGRA.
pub open spec fn spec_pixel(raw: u32, colour: (u8, u8, u8)) -> u32 {
    let coverage = (raw % 256) as u32;
    (coverage * 0x100_0000 + scale(colour.0, coverage) * 0x1_0000 + scale(colour.1, coverage) * 0x100
        + scale(colour.2, coverage)) as u32
}

/// Turns one pixel of the drawn coverage map into a premultiplied icon pixel.
pub fn premultiply(raw: u32, colour: (u8, u8, u8)) -> (r: u32)
    ensures
        r == spec_pixel(raw, colour),
{
    let coverage = raw & 0xFF;
    assert(coverage == raw % 256 && coverage <= 255) by (bit_vector)
        requires
            coverage == raw & 0xFF,
    ;
    let (red, green, blue) = colour;
    assert((red as u32) * coverage <= 65025 && (green as u32) * coverage <= 65025 && (blue as u32) * coverage
        <= 65025) by (nonlinear_arith)
        requires
            coverage <= 255,
            red <= 255,
            green <= 255,
            blue <= 255,
    ;
    let pr = (red as u32) * coverage / 255;
    let pg = (green as u32) * coverage / 255;
    let pb = (blue as u32) * coverage / 255;
    assert(pr <= 255 && pg <= 255 && pb <= 255) by (nonlinear_arith)
        requires
            pr == (red as u32) * coverage / 255,
            pg == (green as u32) * coverage / 255,
            pb == (blue as u32) * coverage / 255,
            coverage <= 255,
            red <= 255,
            green <= 255,
            blue <= 255,
    ;
    let r = (coverage << 24) | (pr << 16) | (pg << 8) | pb;
    assert(r == coverage * 0x100_0000 + pr * 0x1_0000 + pg * 0x100 + pb) by (bit_vector)
        requires
            r == (coverage << 24) | (pr << 16) | (pg << 8) | pb,
            coverage <= 255,
            pr <= 255,
            pg <= 255,
            pb <= 255,
    ;
    r
}

/// What the tray is currently showing, so an unchanged state is not
/// repainted and a changed one always is.
pub struct TrayShown {
    shown: Option<(Indicator, Option<String>)>,
}

impl TrayShown {
    /// The state and named application last painted, if any.
    pub closed spec fn spec_shown(&self) -> Option<(Indicator, Option<Seq<char>>)> {
        match self.shown {
            Some((i, a)) => Some((i, match a { Some(s) => Some(s@), None => None })),
            None => None,
        }
    }

    /// Nothing painted yet.
    pub fn new() -> (r: Self)
        ensures
            r.spec_shown() is None,
    {
        TrayShown { shown: None }
    }

    /// Records the state about to be painted and says whether a repaint is
    /// needed: it is, unless the same state naming the same application is
    /// already shown (the two breakages differ only in their tooltip, so the
    /// application counts).
    pub fn refresh(&mut self, state: Indicator, app: Option<&str>) -> (repaint: bool)
        ensures
            final(self).spec_shown() == Some((state, match app { Some(a) => Some(a@), None => None })),
            repaint == (old(self).spec_shown() != Some((state, match app { Some(a) => Some(a@), None => None }))),
    {
        let same = match &self.shown {
            Some((i, a)) => *i == state && match (a, app) {
                (Some(x), Some(y)) => crate::text::str_eq(x.as_str(), y),
                (None, None) => true,
                _ => false,
            },
            None => false,
        };
        if !same {
            self.shown = Some((state, match app { Some(a) => Some(a.to_owned()), None => None }));
        }
        !same
    }
}

/// One entry of the tray menu.
#[derive(Debug)]
pub enum MenuEntry {
    /// A clickable (or, with id 0, informational) line, with its check mark.
    Item { id: usize, checked: bool, label: String },
    /// A separator.
    Separator,
}

/// What an entry says.
pub enum MenuEntryModel {
    Item { id: usize, checked: bool, label: Seq<char> },
    Separator,
}

impl View for MenuEntry {
    type V = MenuEntryModel;

    open spec fn view(&self) -> MenuEntryModel {
        match self {
            MenuEntry::Item { id, checked, label } => MenuEntryModel::Item { id: *id, checked: *checked, label: label@ },
            MenuEntry::Separator => MenuEntryModel::Separator,
        }
    }
}

/// The views of a menu.
pub open spec fn menu_view(v: Seq<MenuEntry>) -> Seq<MenuEntryModel> {
    v.map_values(|e: MenuEntry| e@)
}

/// A line in the chosen language.
pub open spec fn tr(vietnamese: bool, en: Seq<char>, vi: Seq<char>) -> Seq<char> {
    if vietnamese { vi } else { en }
}

/// The per-application line: names the application when it is known.
pub open spec fn app_line(app: Option<Seq<char>>, vietnamese: bool) -> Seq<char> {
    match app {
        Some(a) => if vietnamese { "Gõ tiếng Việt trong "@ + a } else { "Vietnamese in "@ + a },
        None => tr(vietnamese, "Vietnamese in this app"@, "Gõ tiếng Việt trong ứng dụng này"@),
    }
}

/// The breakage lines that head the menu when GlowKey is not working: the
/// description, the reinstall remedy for a dead hook, and a separator.
pub open spec fn breakage_lines(s_indicator: Indicator, app: Option<Seq<char>>, vietnamese: bool) -> Seq<MenuEntryModel> {
    match s_indicator {
        Indicator::Broken(cause) => seq![MenuEntryModel::Item {
            id: 0,
            checked: false,
            label: spec_describe(s_indicator, app, vietnamese),
        }] + (if cause == Breakage::HookGone {
            seq![MenuEntryModel::Item {
                id: spec_id(Command::ReinstallHook),
                checked: false,
                label: tr(vietnamese, "Reinstall the keyboard hook"@, "Cài lại bộ bắt phím"@),
            }]
        } else {
            Seq::empty()
        }) + seq![MenuEntryModel::Separator],
        _ => Seq::empty(),
    }
}

/// The tray menu for a snapshot: the breakage first when there is one, then
/// the toggles with their check marks, start-at-login, the clipboard tools,
/// and the log, Settings and Quit.
pub open spec fn spec_menu(
    indicator: Indicator,
    app: Option<Seq<char>>,
    mode_is_vietnamese: bool,
    app_excluded: bool,
    auto_fix: bool,
    start_at_login: bool,
    vietnamese: bool,
) -> Seq<MenuEntryModel> {
    breakage_lines(indicator, app, vietnamese) + seq![
        MenuEntryModel::Item {
            id: spec_id(Command::ToggleMode),
            checked: mode_is_vietnamese,
            label: tr(vietnamese, "Vietnamese input"@, "Gõ tiếng Việt"@),
        },
        MenuEntryModel::Item { id: spec_id(Command::ToggleApp), checked: !app_excluded, label: app_line(app, vietnamese) },
        MenuEntryModel::Item {
            id: spec_id(Command::AutoFix),
            checked: auto_fix,
            label: tr(vietnamese, "Auto-fix English words"@, "Tự động sửa từ tiếng Anh"@),
        },
        MenuEntryModel::Separator,
        MenuEntryModel::Item {
            id: spec_id(Command::StartAtLogin),
            checked: start_at_login,
            label: tr(vietnamese, "Start at login"@, "Khởi động cùng máy"@),
        },
        MenuEntryModel::Separator,
        MenuEntryModel::Item {
            id: spec_id(Command::ClipboardRemoveTones),
            checked: false,
            label: tr(vietnamese, "Clipboard: remove tones"@, "Clipboard: bỏ dấu"@),
        },
        MenuEntryModel::Item {
            id: spec_id(Command::ClipboardUpper),
            checked: false,
            label: tr(vietnamese, "Clipboard: UPPERCASE"@, "Clipboard: CHỮ HOA"@),
        },
        MenuEntryModel::Item {
            id: spec_id(Command::ClipboardLower),
            checked: false,
            label: tr(vietnamese, "Clipboard: lowercase"@, "Clipboard: chữ thường"@),
        },
        MenuEntryModel::Separator,
        MenuEntryModel::Item {
            id: spec_id(Command::RevealLog),
            checked: false,
            label: tr(vietnamese, "Show log folder"@, "Mở thư mục nhật ký"@),
        },
        MenuEntryModel::Item { id: spec_id(Command::Settings), checked: false, label: tr(vietnamese, "Settings…"@, "Cài đặt…"@) },
        MenuEntryModel::Item { id: spec_id(Command::Quit), checked: false, label: tr(vietnamese, "Quit GlowKey"@, "Thoát GlowKey"@) },
    ]
}

/// An entry with a fixed label in the chosen language.
fn item(id: usize, checked: bool, vietnamese: bool, en: &str, vi: &str) -> (r: MenuEntry)
    ensures
        r@ == (MenuEntryModel::Item { id, checked, label: tr(vietnamese, en@, vi@) }),
{
    MenuEntry::Item { id, checked, label: if vietnamese { vi.to_owned() } else { en.to_owned() } }
}

/// The tray menu for a snapshot of the session.
pub fn menu_entries(snapshot: &Snapshot, start_at_login: bool, vietnamese: bool) -> (r: Vec<MenuEntry>)
    ensures
        menu_view(r@) == spec_menu(
            snapshot.indicator,
            match snapshot.app { Some(a) => Some(a@), None => None },
            snapshot.mode_is_vietnamese,
            snapshot.app_excluded,
            snapshot.auto_fix,
            start_at_login,
            vietnamese,
        ),
{
    let ghost app = match &snapshot.app { Some(a) => Some(a@), None => None };
    let app_str: Option<&str> = match &snapshot.app {
        Some(a) => Some(a.as_str()),
        None => None,
    };
    let mut r: Vec<MenuEntry> = Vec::new();
    if let Indicator::Broken(cause) = snapshot.indicator {
        r.push(MenuEntry::Item { id: 0, checked: false, label: snapshot.indicator.describe_in(app_str, vietnamese) });
        if cause == Breakage::HookGone {
            r.push(item(Command::ReinstallHook.id(), false, vietnamese, "Reinstall the keyboard hook", "Cài lại bộ bắt phím"));
        }
        r.push(MenuEntry::Separator);
    }
    assert(menu_view(r@) =~= breakage_lines(snapshot.indicator, app, vietnamese));
    let ghost head = menu_view(r@);
    r.push(item(Command::ToggleMode.id(), snapshot.mode_is_vietnamese, vietnamese, "Vietnamese input", "Gõ tiếng Việt"));
    let app_label = match app_str {
        Some(a) => if vietnamese {
            concat3("Gõ tiếng Việt trong ", a, "")
        } else {
            concat3("Vietnamese in ", a, "")
        },
        None => if vietnamese {
            "Gõ tiếng Việt trong ứng dụng này".to_owned()
        } else {
            "Vietnamese in this app".to_owned()
        },
    };
    proof {
        reveal_strlit("");
    }
    assert(app_label@ =~= app_line(app, vietnamese));
    r.push(MenuEntry::Item { id: Command::ToggleApp.id(), checked: !snapshot.app_excluded, label: app_label });
    r.push(item(Command::AutoFix.id(), snapshot.auto_fix, vietnamese, "Auto-fix English words", "Tự động sửa từ tiếng Anh"));
    r.push(MenuEntry::Separator);
    r.push(item(Command::StartAtLogin.id(), start_at_login, vietnamese, "Start at login", "Khởi động cùng máy"));
    r.push(MenuEntry::Separator);
    r.push(item(Command::ClipboardRemoveTones.id(), false, vietnamese, "Clipboard: remove tones", "Clipboard: bỏ dấu"));
    r.push(item(Command::ClipboardUpper.id(), false, vietnamese, "Clipboard: UPPERCASE", "Clipboard: CHỮ HOA"));
    r.push(item(Command::ClipboardLower.id(), false, vietnamese, "Clipboard: lowercase", "Clipboard: chữ thường"));
    r.push(MenuEntry::Separator);
    r.push(item(Command::RevealLog.id(), false, vietnamese, "Show log folder", "Mở thư mục nhật ký"));
    r.push(item(Command::Settings.id(), false, vietnamese, "Settings…", "Cài đặt…"));
    r.push(item(Command::Quit.id(), false, vietnamese, "Quit GlowKey", "Thoát GlowKey"));
    assert(menu_view(r@) =~= spec_menu(
        snapshot.indicator,
        app,
        snapshot.mode_is_vietnamese,
        snapshot.app_excluded,
        snapshot.auto_fix,
        start_at_login,
        vietnamese,
    ));
    r
}

/// A truncated tooltip never ends in half a surrogate pair: everything before
/// its NUL decodes, whatever the text and the field's size.
pub proof fn tooltip_never_splits_a_surrogate_pair(text: Seq<char>, capacity: nat)
    requires
        capacity > 0,
    ensures
        decode_utf16(spec_tooltip_units(text, capacity).drop_last()) is Some,
{
    let all = utf16(text);
    let n: int = if all.len() <= capacity - 1 { all.len() as int } else { capacity - 1 };
    let cut = if all.len() <= capacity - 1 { all } else { all.take(capacity - 1) };
    assert(cut =~= all.take(n));
    lemma_utf16_prefix(text, n);
    let k = choose|k: int| #![trigger text.take(k)] 0 <= k <= text.len() && (all.take(n) == utf16(text.take(k)) || (
        all.take(n) == utf16(text.take(k)).push(all.take(n).last()) && is_high_surrogate(all.take(n).last())));
    lemma_utf16_decodes(text.take(k));
    let kept = if cut.len() > 0 && is_high_surrogate(cut.last()) { cut.drop_last() } else { cut };
    assert(spec_tooltip_units(text, capacity).drop_last() =~= kept);
    if cut == utf16(text.take(k)) {
        assert(kept == utf16(text.take(k)));
    } else {
        assert(cut.len() > 0 && is_high_surrogate(cut.last()));
        assert(kept =~= utf16(text.take(k)));
    }
}

} // verus!
