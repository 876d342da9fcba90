//! What a tray-menu click means. `tray` owns pixels and menus; this owns the
//! session-side effect of each command and the snapshot the menu draws from.
use vstd::prelude::*;

use crate::default_exclusions::{Platform, spec_shipped_defaults};
use crate::session::{ExclusionToggle, Session, same_runtime};
use crate::settings::{InputMode, Settings, SettingsModel, merge_model, merge_settings};
use super::foreground::Foreground;
use super::hook::Hook;
use super::indicator::{Indicator, spec_state, state};
use super::ui_thread::{UiCommand, open_about};

verus! {

/// Everything the menu needs to draw itself, taken in one pass.
#[derive(Debug)]
pub struct Snapshot {
    pub indicator: Indicator,
    pub app: Option<String>,
    pub mode_is_vietnamese: bool,
    pub app_excluded: bool,
    pub auto_fix: bool,
}

/// The tray's side of the backend: the hook (and its session) and the
/// foreground cache.
pub struct Shell {
    pub hook: Hook,
    pub foreground: Foreground,
}

/// Whether the application is excluded as the indicator means it: Vietnamese
/// is on as a mode, yet keys are not transformed here.
pub open spec fn spec_app_excluded(s: Session) -> bool {
    s.spec_mode() == InputMode::Vietnamese && !s.spec_is_active()
}

/// The view of an optional string.
pub open spec fn opt_view(o: Option<String>) -> Option<Seq<char>> {
    match o {
        Some(s) => Some(s@),
        None => None,
    }
}

impl Shell {
    /// The application the foreground cache names (none before it has one, or
    /// when the name is empty).
    pub open spec fn spec_app(&self) -> Option<Seq<char>> {
        match self.foreground.spec_state() {
            Some((app, _, _)) => if app.len() > 0 { Some(app) } else { None },
            None => None,
        }
    }

    /// What the tray should show, once the session exists.
    pub open spec fn spec_indicator(&self) -> Indicator {
        spec_state(
            self.hook.spec_handle() != 0,
            self.foreground.spec_reach(),
            self.hook.spec_session().spec_mode(),
            spec_app_excluded(self.hook.spec_session()),
        )
    }

    /// Takes the snapshot; `None` before the session exists. The application
    /// comes from the foreground cache, which knows it before the first key.
    pub fn snapshot(&self) -> (r: Option<Snapshot>)
        ensures
            self.hook.spec_has_state() == (r is Some),
            r is Some ==> ({
                let s = r.unwrap();
                let session = self.hook.spec_session();
                &&& s.app_excluded == spec_app_excluded(session)
                &&& s.mode_is_vietnamese == (session.spec_mode() == InputMode::Vietnamese)
                &&& s.auto_fix == session.spec_settings().auto_fix
                &&& s.indicator == self.spec_indicator()
                &&& opt_view(s.app) == self.spec_app()
            }),
    {
        let app = self.foreground.current();
        let reach = self.foreground.reach();
        let installed = self.hook.is_installed();
        match self.hook.session() {
            Some(session) => {
                let mode = session.mode();
                let app_excluded = mode == InputMode::Vietnamese && !session.is_active();
                Some(Snapshot {
                    indicator: state(installed, reach, mode, app_excluded),
                    app,
                    mode_is_vietnamese: mode == InputMode::Vietnamese,
                    app_excluded,
                    auto_fix: session.auto_fix(),
                })
            },
            None => None,
        }
    }

    /// What the tray should now show: the state and the application it names.
    pub fn refresh_indicator(&self) -> (r: Option<(Indicator, Option<String>)>)
        ensures
            self.hook.spec_has_state() == (r is Some),
            r is Some ==> r.unwrap().0 == self.spec_indicator() && opt_view(r.unwrap().1) == self.spec_app(),
    {
        match self.snapshot() {
            Some(s) => Some((s.indicator, s.app)),
            None => None,
        }
    }

    /// The application in front changed: the session is told, then the tray
    /// is repainted from the result.
    pub fn foreground_changed(&mut self, app: &str) -> (r: Option<(Indicator, Option<String>)>)
        requires
            old(self).hook.wf(),
        ensures
            final(self).hook.wf(),
            final(self).hook.spec_has_state() == old(self).hook.spec_has_state(),
            old(self).hook.spec_has_state() ==> final(self).hook.spec_session().spec_frontmost() == Some(app@),
            old(self).hook.spec_has_state() == (r is Some),
            r is Some ==> r.unwrap().0 == final(self).spec_indicator() && opt_view(r.unwrap().1) == final(self).spec_app(),
            final(self).foreground == old(self).foreground,
            final(self).hook.spec_handle() == old(self).hook.spec_handle(),
    {
        proof {
            if self.hook.spec_has_state() {
                self.hook.lemma_session_wf();
            }
        }
        if let Some(session) = self.hook.session_mut() {
            session.set_frontmost_app(app);
        }
        proof {
            self.hook.lemma_wf_from_session();
        }
        self.refresh_indicator()
    }

    /// Flips Vietnamese on or off; the settings are marked for saving.
    pub fn toggle_mode(&mut self) -> (r: Option<InputMode>)
        requires
            old(self).hook.wf(),
        ensures
            final(self).hook.wf(),
            old(self).hook.spec_has_state() == (r is Some),
            r is Some ==> r.unwrap() == final(self).hook.spec_session().spec_mode()
                && r.unwrap() != old(self).hook.spec_session().spec_mode()
                && final(self).hook.spec_pending_save()
                && final(self).hook.spec_has_state()
                && final(self).hook.spec_session().spec_settings() == old(self).hook.spec_session().spec_settings()
                && final(self).hook.spec_session().spec_frontmost() == old(self).hook.spec_session().spec_frontmost()
                && final(self).hook.spec_session().spec_list_ids() == old(self).hook.spec_session().spec_list_ids()
                && final(self).hook.spec_session().spec_list_removed() == old(self).hook.spec_session().spec_list_removed()
                && final(self).hook.spec_session().spec_suspended() == old(self).hook.spec_session().spec_suspended()
                && final(self).hook.spec_session().spec_platform() == old(self).hook.spec_session().spec_platform()
                && final(self).hook.spec_session().spec_composing() == Seq::<char>::empty()
                && final(self).hook.spec_pending_refresh() == old(self).hook.spec_pending_refresh()
                && final(self).hook.spec_last_app() == old(self).hook.spec_last_app(),
            r is None ==> final(self).hook == old(self).hook,
            final(self).hook.spec_handle() == old(self).hook.spec_handle(),
            final(self).foreground == old(self).foreground,
    {
        proof {
            if self.hook.spec_has_state() {
                self.hook.lemma_session_wf();
            }
        }
        let mode = match self.hook.session_mut() {
            Some(session) => Some(session.toggle_mode()),
            None => None,
        };
        proof {
            self.hook.lemma_wf_from_session();
        }
        if mode.is_some() {
            self.hook.mark_dirty();
        }
        mode
    }

    /// Adds or removes the application in front from the ignore list; does
    /// nothing before the application is known. A session-only enabling is
    /// not saved.
    pub fn toggle_current_app(&mut self) -> (r: Option<ExclusionToggle>)
        requires
            old(self).hook.wf(),
        ensures
            final(self).hook.wf(),
            final(self).foreground == old(self).foreground,
            (r is Some) == (old(self).spec_app() is Some && old(self).hook.spec_has_state()),
            r is Some ==> {
                &&& final(self).hook.spec_has_state()
                &&& crate::session::spec_toggled(
                    old(self).hook.spec_session(),
                    final(self).hook.spec_session(),
                    old(self).spec_app().unwrap(),
                    r.unwrap(),
                )
                &&& r.unwrap() == ExclusionToggle::EnabledSessionOnly <==> (old(self).hook.spec_session().spec_excluded_now(
                    old(self).spec_app().unwrap(),
                ) && crate::default_exclusions::spec_terminals(old(self).hook.spec_session().spec_platform()).contains(
                    old(self).spec_app().unwrap(),
                ))
                &&& final(self).hook.spec_session().spec_settings() == old(self).hook.spec_session().spec_settings()
                &&& final(self).hook.spec_session().spec_mode() == old(self).hook.spec_session().spec_mode()
                &&& final(self).hook.spec_pending_save() == (old(self).hook.spec_pending_save() || r.unwrap()
                    != ExclusionToggle::EnabledSessionOnly)
                &&& final(self).hook.spec_pending_refresh() == old(self).hook.spec_pending_refresh()
                &&& final(self).hook.spec_last_app() == old(self).hook.spec_last_app()
                &&& final(self).hook.spec_handle() == old(self).hook.spec_handle()
            },
            r is None ==> final(self).hook == old(self).hook,
    {
        let app = match self.foreground.current() {
            Some(a) => a,
            None => {
                return None;
            },
        };
        proof {
            if self.hook.spec_has_state() {
                self.hook.lemma_session_wf();
            }
        }
        let outcome = match self.hook.session_mut() {
            Some(session) => Some(session.toggle_app_exclusion(app.as_str())),
            None => None,
        };
        proof {
            self.hook.lemma_wf_from_session();
        }
        match outcome {
            Some(o) => {
                if o != ExclusionToggle::EnabledSessionOnly {
                    self.hook.mark_dirty();
                }
                Some(o)
            },
            None => None,
        }
    }

    /// Turns auto-fix on or off and marks the settings for saving; returns
    /// the new value.
    pub fn toggle_auto_fix(&mut self) -> (r: Option<bool>)
        requires
            old(self).hook.wf(),
        ensures
            final(self).hook.wf(),
            old(self).hook.spec_has_state() == (r is Some),
            r is Some ==> final(self).hook.spec_session().spec_settings() == (SettingsModel {
                auto_fix: !old(self).hook.spec_session().spec_settings().auto_fix,
                ..old(self).hook.spec_session().spec_settings()
            }) && r.unwrap() == !old(self).hook.spec_session().spec_settings().auto_fix
                && final(self).hook.spec_pending_save()
                && same_runtime(old(self).hook.spec_session(), final(self).hook.spec_session())
                && final(self).hook.spec_has_state()
                && final(self).hook.spec_pending_refresh() == old(self).hook.spec_pending_refresh()
                && final(self).hook.spec_last_app() == old(self).hook.spec_last_app(),
            r is None ==> final(self).hook == old(self).hook,
            final(self).hook.spec_handle() == old(self).hook.spec_handle(),
            final(self).foreground == old(self).foreground,
    {
        proof {
            if self.hook.spec_has_state() {
                self.hook.lemma_session_wf();
            }
        }
        let next = match self.hook.session_mut() {
            Some(session) => {
                let next = !session.auto_fix();
                session.set_auto_fix(next);
                Some(next)
            },
            None => None,
        };
        proof {
            self.hook.lemma_wf_from_session();
        }
        if next.is_some() {
            self.hook.mark_dirty();
        }
        next
    }

    /// The session's persisted settings, for the settings window to open on.
    pub fn open_settings(&self) -> (r: Option<Settings>)
        ensures
            self.hook.spec_has_state() == (r is Some),
            r is Some ==> r.unwrap()@ == (SettingsModel {
                exclusions: self.hook.spec_session().spec_list_ids(),
                removed_default_exclusions: self.hook.spec_session().spec_list_removed(),
                ..self.hook.spec_session().spec_settings()
            }),
    {
        match self.hook.session() {
            Some(session) => Some(session.snapshot()),
            None => None,
        }
    }

    /// Applies what the settings window handed back (`None`: closed without
    /// changes). The window's edits are applied as a diff against `current`,
    /// the value it was opened on, over what the session holds now; the session
    /// is rebuilt from the merge (keeping the application in front) and the
    /// merge is returned for writing.
    pub fn apply_settings(&mut self, current: &Settings, updated: Option<Settings>) -> (r: Option<Settings>)
        requires
            old(self).hook.wf(),
        ensures
            final(self).hook.wf(),
            updated is None ==> r is None,
            updated is Some && old(self).hook.spec_has_state() ==> r is Some && r.unwrap()@ == merge_model(
                current@,
                updated.unwrap()@,
                SettingsModel {
                    exclusions: old(self).hook.spec_session().spec_list_ids(),
                    removed_default_exclusions: old(self).hook.spec_session().spec_list_removed(),
                    ..old(self).hook.spec_session().spec_settings()
                },
            ) && final(self).hook.spec_has_state() && final(self).hook.spec_session().spec_settings() == r.unwrap()@
                && final(self).hook.spec_session().spec_frontmost() == old(self).spec_app()
                && final(self).hook.spec_session().spec_platform() == Platform::Windows
                && final(self).hook.spec_session().spec_mode() == InputMode::Vietnamese
                && final(self).hook.spec_session().spec_suspended() == Seq::<Seq<char>>::empty()
                && (forall|id: Seq<char>| #[trigger] final(self).hook.spec_session().spec_list_ids().contains(id)
                <==> crate::exclusion::merged(
                    r.unwrap()@.exclusions,
                    r.unwrap()@.removed_default_exclusions,
                    spec_shipped_defaults(Platform::Windows),
                    id,
                ))
                && final(self).hook.spec_pending_save() == old(self).hook.spec_pending_save()
                && final(self).hook.spec_pending_refresh() == old(self).hook.spec_pending_refresh()
                && final(self).hook.spec_last_app() == old(self).hook.spec_last_app(),
            updated is Some && !old(self).hook.spec_has_state() ==> r is Some && r.unwrap()@ == merge_model(
                current@,
                updated.unwrap()@,
                current@,
            ) && final(self).hook == old(self).hook,
            updated is None ==> final(self).hook == old(self).hook,
            final(self).hook.spec_handle() == old(self).hook.spec_handle(),
            final(self).foreground == old(self).foreground,
    {
        let updated = match updated {
            Some(u) => u,
            None => {
                return None;
            },
        };
        let live = match self.hook.session() {
            Some(session) => session.snapshot(),
            None => current.clone(),
        };
        let merged = merge_settings(current, &updated, live);
        let app = self.foreground.current();
        if let Some(session) = self.hook.session_mut() {
            let mut fresh = Session::from_settings(&merged, Platform::Windows);
            if let Some(a) = &app {
                fresh.set_frontmost_app(a.as_str());
            }
            *session = fresh;
        }
        proof {
            self.hook.lemma_wf_from_session();
        }
        Some(merged)
    }

    /// Shows the About window: the request for the UI thread.
    pub fn show_about(&self) -> (r: UiCommand)
        ensures
            r is OpenAbout,
    {
        open_about()
    }

    /// The hook was reinstalled with `new_handle`: records it and hands back
    /// the old handle to unhook, and what the tray should now show.
    pub fn reinstall_hook(&mut self, new_handle: isize) -> (r: (isize, Option<(Indicator, Option<String>)>))
        ensures
            r.0 == old(self).hook.spec_handle(),
            final(self).hook.spec_handle() == new_handle,
            final(self).hook.spec_has_state() == old(self).hook.spec_has_state(),
            final(self).hook.spec_has_state() == (r.1 is Some),
            r.1 is Some ==> r.1.unwrap().0 == final(self).spec_indicator() && opt_view(r.1.unwrap().1) == final(self).spec_app(),
    {
        let old_handle = self.hook.uninstall();
        self.hook.installed(new_handle);
        (old_handle, self.refresh_indicator())
    }
}

} // verus!
