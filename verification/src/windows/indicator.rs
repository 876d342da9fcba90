//! What the tray icon says, and the rule that it must not lie.
//!
//! Windows has two ways to be silently dead: the keyboard hook removed for being
//! slow, and the window in front being elevated. Both look the same to the user
//! (typing does nothing) and need different remedies, so the indicator keeps
//! them apart in its text even though they share the `⚠` glyph.
use vstd::prelude::*;
use vstd::string::StringExecFns;

use crate::settings::InputMode;
use crate::text::concat3;
use super::elevation::Reach;

verus! {

/// Why GlowKey is not working.
#[derive(Clone, Copy, Debug, PartialEq, Eq, Structural)]
pub enum Breakage {
    /// The keyboard hook is not installed; GlowKey's own fault, with a remedy.
    HookGone,
    /// The window in front runs elevated, so injected input is discarded.
    ElevatedWindow,
}

/// What the tray shows.
#[derive(Clone, Copy, Debug, PartialEq, Eq, Structural)]
pub enum Indicator {
    /// Vietnamese, working. `VI`.
    Vietnamese,
    /// Vietnamese is on, but the application in front is on the ignore list.
    /// Dimmed `VI`.
    ExcludedApp,
    /// Vietnamese is switched off. `EN`.
    English,
    /// GlowKey is not working, and the user cannot tell by looking at their
    /// document. `⚠`.
    Broken(Breakage),
}

/// The state to display. Ordered by severity: a dead hook wins over
/// everything, an elevated window over every working state, and an
/// unexaminable window is not a failure.
pub open spec fn spec_state(hook_installed: bool, reach: Reach, mode: InputMode, app_excluded: bool) -> Indicator {
    if !hook_installed {
        Indicator::Broken(Breakage::HookGone)
    } else if reach == Reach::BlockedByElevation {
        Indicator::Broken(Breakage::ElevatedWindow)
    } else if mode == InputMode::English {
        Indicator::English
    } else if app_excluded {
        Indicator::ExcludedApp
    } else {
        Indicator::Vietnamese
    }
}

/// The state to display, from everything that can affect it.
pub fn state(hook_installed: bool, reach: Reach, mode: InputMode, app_excluded: bool) -> (r: Indicator)
    ensures
        r == spec_state(hook_installed, reach, mode, app_excluded),
{
    if !hook_installed {
        return Indicator::Broken(Breakage::HookGone);
    }
    if reach == Reach::BlockedByElevation {
        return Indicator::Broken(Breakage::ElevatedWindow);
    }
    if mode == InputMode::English {
        return Indicator::English;
    }
    if app_excluded {
        return Indicator::ExcludedApp;
    }
    Indicator::Vietnamese
}

/// A dead hook is reported whatever else is true.
pub proof fn a_dead_hook_is_always_reported(reach: Reach, mode: InputMode, app_excluded: bool)
    ensures
        spec_state(false, reach, mode, app_excluded) == Indicator::Broken(Breakage::HookGone),
{
}

/// With the hook alive and the window reachable, nothing is reported broken.
pub proof fn a_working_hook_reports_no_breakage(mode: InputMode, app_excluded: bool)
    ensures
        !(spec_state(true, Reach::Reachable, mode, app_excluded) is Broken),
        !(spec_state(true, Reach::Unknown, mode, app_excluded) is Broken),
{
}

/// The glyph drawn in the tray for each state.
pub open spec fn spec_glyph(i: Indicator) -> Seq<char> {
    match i {
        Indicator::Vietnamese | Indicator::ExcludedApp => seq!['V', 'I'],
        Indicator::English => seq!['E', 'N'],
        Indicator::Broken(_) => seq!['⚠'],
    }
}

impl Indicator {
    /// The glyph drawn in the tray.
    pub fn glyph(self) -> (r: &'static str)
        ensures
            r@ == spec_glyph(self),
    {
        match self {
            Indicator::Vietnamese | Indicator::ExcludedApp => {
                let s = "VI";
                proof {
                    reveal_strlit("VI");
                }
                s
            },
            Indicator::English => {
                let s = "EN";
                proof {
                    reveal_strlit("EN");
                }
                s
            },
            Indicator::Broken(_) => {
                let s = "⚠";
                proof {
                    reveal_strlit("⚠");
                }
                s
            },
        }
    }

    /// Whether the glyph is drawn dimmed: only for an excluded application,
    /// whose `VI` means "on, but not here".
    pub fn dimmed(self) -> (r: bool)
        ensures
            r == (self == Indicator::ExcludedApp),
    {
        match self {
            Indicator::ExcludedApp => true,
            _ => false,
        }
    }
}

/// The tooltip and menu line for a state, in English or Vietnamese. `app`,
/// when known, names the application in front: the excluded and the elevated
/// states name it, because the user needs to know which window is meant.
pub open spec fn spec_describe(i: Indicator, app: Option<Seq<char>>, vietnamese: bool) -> Seq<char> {
    match i {
        Indicator::Vietnamese => if vietnamese {
            "GlowKey — tiếng Việt"@
        } else {
            "GlowKey — Vietnamese"@
        },
        Indicator::ExcludedApp => match app {
            Some(a) => if vietnamese {
                "GlowKey — tắt trong "@ + a + " (danh sách bỏ qua)"@
            } else {
                "GlowKey — off in "@ + a + " (ignore list)"@
            },
            None => if vietnamese {
                "GlowKey — tắt trong ứng dụng này (danh sách bỏ qua)"@
            } else {
                "GlowKey — off in this app (ignore list)"@
            },
        },
        Indicator::English => if vietnamese {
            "GlowKey — tiếng Anh"@
        } else {
            "GlowKey — English"@
        },
        Indicator::Broken(Breakage::HookGone) => if vietnamese {
            "GlowKey — KHÔNG CHẠY: bộ bắt phím đã mất. Bấm để cài lại."@
        } else {
            "GlowKey — NOT RUNNING: the keyboard hook is gone. Click to reinstall it."@
        },
        Indicator::Broken(Breakage::ElevatedWindow) => match app {
            Some(a) => if vietnamese {
                "GlowKey — không gõ được vào "@ + a
                    + ": ứng dụng chạy với quyền quản trị, và Windows chặn nhập liệu từ chương trình thường vào cửa sổ đó."@
            } else {
                "GlowKey — cannot type into "@ + a
                    + ": it runs elevated, and Windows blocks input from ordinary programs into elevated windows."@
            },
            None => if vietnamese {
                "GlowKey — không gõ được vào cửa sổ này: nó chạy với quyền quản trị."@
            } else {
                "GlowKey — cannot type into this window: it runs elevated."@
            },
        },
    }
}

impl Indicator {
    /// The tooltip and menu line, in the chosen interface language. This is
    /// where the two breakages separate: a dead hook offers its remedy, an
    /// elevated window is named.
    pub fn describe_in(self, app: Option<&str>, vietnamese: bool) -> (r: String)
        ensures
            r@ == spec_describe(self, match app { Some(a) => Some(a@), None => None }, vietnamese),
    {
        match self {
            Indicator::Vietnamese => if vietnamese {
                "GlowKey — tiếng Việt".to_owned()
            } else {
                "GlowKey — Vietnamese".to_owned()
            },
            Indicator::ExcludedApp => match app {
                Some(a) => if vietnamese {
                    concat3("GlowKey — tắt trong ", a, " (danh sách bỏ qua)")
                } else {
                    concat3("GlowKey — off in ", a, " (ignore list)")
                },
                None => if vietnamese {
                    "GlowKey — tắt trong ứng dụng này (danh sách bỏ qua)".to_owned()
                } else {
                    "GlowKey — off in this app (ignore list)".to_owned()
                },
            },
            Indicator::English => if vietnamese {
                "GlowKey — tiếng Anh".to_owned()
            } else {
                "GlowKey — English".to_owned()
            },
            Indicator::Broken(Breakage::HookGone) => if vietnamese {
                "GlowKey — KHÔNG CHẠY: bộ bắt phím đã mất. Bấm để cài lại.".to_owned()
            } else {
                "GlowKey — NOT RUNNING: the keyboard hook is gone. Click to reinstall it.".to_owned()
            },
            Indicator::Broken(Breakage::ElevatedWindow) => match app {
                Some(a) => if vietnamese {
                    concat3(
                        "GlowKey — không gõ được vào ",
                        a,
                        ": ứng dụng chạy với quyền quản trị, và Windows chặn nhập liệu từ chương trình thường vào cửa sổ đó.",
                    )
                } else {
                    concat3(
                        "GlowKey — cannot type into ",
                        a,
                        ": it runs elevated, and Windows blocks input from ordinary programs into elevated windows.",
                    )
                },
                None => if vietnamese {
                    "GlowKey — không gõ được vào cửa sổ này: nó chạy với quyền quản trị.".to_owned()
                } else {
                    "GlowKey — cannot type into this window: it runs elevated.".to_owned()
                },
            },
        }
    }

    /// The tooltip and menu line in English.
    pub fn describe(self, app: Option<&str>) -> (r: String)
        ensures
            r@ == spec_describe(self, match app { Some(a) => Some(a@), None => None }, false),
    {
        self.describe_in(app, false)
    }
}

/// An elevated window in front is reported whatever the mode and the ignore
/// list say, as long as the hook is alive: a blocked GlowKey is broken even
/// with Vietnamese switched off.
pub proof fn an_elevated_window_is_always_reported(mode: InputMode, app_excluded: bool)
    ensures
        spec_state(true, Reach::BlockedByElevation, mode, app_excluded) == Indicator::Broken(Breakage::ElevatedWindow),
{
}

/// With the hook alive and input arriving (or not known to be blocked), the
/// tray shows the mode: `EN` when Vietnamese is off, dimmed `VI` in an
/// excluded application, `VI` otherwise.
pub proof fn a_working_hook_shows_the_mode(reach: Reach, mode: InputMode, app_excluded: bool)
    requires
        reach != Reach::BlockedByElevation,
    ensures
        mode == InputMode::English ==> spec_state(true, reach, mode, app_excluded) == Indicator::English,
        mode == InputMode::Vietnamese && app_excluded ==> spec_state(true, reach, mode, app_excluded) == Indicator::ExcludedApp,
        mode == InputMode::Vietnamese && !app_excluded ==> spec_state(true, reach, mode, app_excluded) == Indicator::Vietnamese,
{
}

} // verus!
