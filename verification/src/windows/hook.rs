//! The keyboard hook's state as the rest of the backend sees it: whether it is
//! installed, the session it drives, and the save and repaint it has asked
//! for. The hook callback runs inside a low-level hook and may not block, so it
//! only sets these requests; the message loop carries them out afterwards.
use vstd::prelude::*;

use crate::default_exclusions::Platform;
use crate::default_exclusions::spec_terminals;
use crate::session::{ExclusionToggle, Session, spec_toggled};
use crate::settings::{Settings, SettingsModel};
use crate::windows::inject::{KeyInput, emit_edit, press, replay_key, spec_edit_inputs, spec_needs_omnibox_guard};

verus! {

pub const WM_KEYDOWN: u32 = 0x0100;
pub const WM_SYSKEYDOWN: u32 = 0x0104;

/// Whether the keyboard hook looks at a callback at all: only an action code
/// (zero), never GlowKey's own injected events, and only key-downs (the
/// Alt-held variant included, so the shortcut filter sees Alt combinations).
/// Everything else passes on untouched, as does any key while the hook has no
/// state.
pub open spec fn spec_examines(code: i32, message: u32, extra_info: usize, has_state: bool) -> bool {
    &&& code == 0
    &&& extra_info != crate::windows::inject::GLOWKEY_INJECTED
    &&& (message == WM_KEYDOWN || message == WM_SYSKEYDOWN)
    &&& has_state
}

/// What the input policy decided for one key, as the hook carries it out.
#[derive(Clone, Debug, PartialEq, Eq)]
pub enum KeyDecision {
    /// Let the key through.
    Passthrough,
    /// Swallow the key.
    Consume,
    /// The per-application hotkey: toggle the application in front.
    ToggleApp,
    /// Delete `backspaces` code units back from the caret, then type `insert`.
    Emit { backspaces: usize, insert: String },
    /// The same edit, then the key itself replayed from GlowKey's own queue,
    /// so that it lands after the edit rather than racing it.
    EmitThenReplayKey { backspaces: usize, insert: String },
}

/// What the policy asked of the platform besides the key itself.
#[derive(Clone, Copy, Debug, PartialEq, Eq)]
pub struct Effects {
    /// The settings changed and must be written.
    pub save_settings: bool,
    /// The tray glyph no longer matches the state.
    pub refresh_glyph: bool,
}

/// The events a decision injects, given the application last told to the
/// session, the key's virtual-key code and whether the caret is in a
/// Chromium address bar.
pub open spec fn spec_carried_inputs(decision: KeyDecision, app: Option<Seq<char>>, vk: u16, focus_is_omnibox: bool) -> Seq<KeyInput> {
    match decision {
        KeyDecision::Emit { backspaces, insert } => spec_edit_inputs(
            backspaces,
            insert@,
            spec_needs_omnibox_guard(backspaces, app, focus_is_omnibox),
        ),
        KeyDecision::EmitThenReplayKey { backspaces, insert } => spec_edit_inputs(
            backspaces,
            insert@,
            spec_needs_omnibox_guard(backspaces, app, focus_is_omnibox),
        ) + press(vk),
        _ => Seq::empty(),
    }
}

/// What one keystroke needs, and nothing that needs the outside world.
pub struct HookState {
    session: Session,
    last_app: Option<String>,
    pending_save: bool,
    pending_refresh: bool,
}

/// The installed hook (its handle, zero when none) and its state.
pub struct Hook {
    handle: isize,
    state: Option<HookState>,
}

/// A replayed key comes after the whole edit it belongs to: its press and
/// release are the last two events of the batch.
pub proof fn the_replayed_key_comes_last(backspaces: usize, insert: String, app: Option<Seq<char>>, vk: u16, focus_is_omnibox: bool)
    ensures
        ({
            let inputs = spec_carried_inputs(
                KeyDecision::EmitThenReplayKey { backspaces, insert },
                app,
                vk,
                focus_is_omnibox,
            );
            &&& inputs.len() >= 2
            &&& inputs[inputs.len() - 2] == (KeyInput::Key { vk: vk, up: false })
            &&& inputs[inputs.len() - 1] == (KeyInput::Key { vk: vk, up: true })
            &&& inputs.take(inputs.len() - 2) == spec_carried_inputs(
                KeyDecision::Emit { backspaces, insert },
                app,
                vk,
                focus_is_omnibox,
            )
        }),
{
    let e = spec_carried_inputs(KeyDecision::Emit { backspaces, insert }, app, vk, focus_is_omnibox);
    let inputs = spec_carried_inputs(KeyDecision::EmitThenReplayKey { backspaces, insert }, app, vk, focus_is_omnibox);
    assert(inputs == e + press(vk));
    assert(inputs.take(inputs.len() - 2) =~= e);
}

impl Hook {
    /// The hook handle, zero when none is installed.
    pub closed spec fn spec_handle(&self) -> isize {
        self.handle
    }

    /// Whether the state has been seeded.
    pub closed spec fn spec_has_state(&self) -> bool {
        self.state is Some
    }

    /// The session, once seeded.
    pub closed spec fn spec_session(&self) -> Session
        recommends
            self.spec_has_state(),
    {
        self.state.unwrap().session
    }

    /// Whether a settings write is waiting.
    pub closed spec fn spec_pending_save(&self) -> bool {
        self.state is Some && self.state.unwrap().pending_save
    }

    /// Whether a tray repaint is waiting.
    pub closed spec fn spec_pending_refresh(&self) -> bool {
        self.state is Some && self.state.unwrap().pending_refresh
    }

    /// The application the session was last told about.
    pub closed spec fn spec_last_app(&self) -> Option<Seq<char>> {
        match self.state {
            Some(s) => match s.last_app {
                Some(a) => Some(a@),
                None => None,
            },
            None => None,
        }
    }

    /// The session's consistency, once seeded.
    pub closed spec fn wf(&self) -> bool {
        self.state is Some ==> self.state.unwrap().session.wf()
    }

    /// A consistent hook holds a consistent session.
    pub proof fn lemma_session_wf(&self)
        requires
            self.wf(),
            self.spec_has_state(),
        ensures
            self.spec_session().wf(),
    {
    }

    /// A hook whose session is consistent is consistent.
    pub proof fn lemma_wf_from_session(&self)
        requires
            self.spec_has_state() ==> self.spec_session().wf(),
        ensures
            self.wf(),
    {
    }

    /// No hook, no state.
    pub fn new() -> (r: Self)
        ensures
            r.wf(),
            r.spec_handle() == 0,
            !r.spec_has_state(),
    {
        Hook { handle: 0, state: None }
    }

    /// Seeds the state from the saved settings. Called once, before the loop.
    pub fn set_state(&mut self, settings: &Settings)
        ensures
            final(self).wf(),
            final(self).spec_has_state(),
            final(self).spec_session().spec_settings() == settings@,
            final(self).spec_session().spec_platform() == Platform::Windows,
            final(self).spec_last_app() is None,
            !final(self).spec_pending_save(),
            !final(self).spec_pending_refresh(),
            final(self).spec_handle() == old(self).spec_handle(),
    {
        self.state = Some(HookState {
            session: Session::from_settings(settings, Platform::Windows),
            last_app: None,
            pending_save: false,
            pending_refresh: false,
        });
    }

    /// Records the handle the system gave the installed hook.
    pub fn installed(&mut self, handle: isize)
        ensures
            final(self).spec_handle() == handle,
            final(self).spec_has_state() == old(self).spec_has_state(),
            old(self).spec_has_state() ==> final(self).spec_session() == old(self).spec_session(),
            final(self).spec_pending_save() == old(self).spec_pending_save(),
            final(self).spec_pending_refresh() == old(self).spec_pending_refresh(),
            final(self).spec_last_app() == old(self).spec_last_app(),
            final(self).wf() == old(self).wf(),
    {
        self.handle = handle;
    }

    /// Forgets the installed hook, handing back its handle for unhooking
    /// (zero when there was none).
    pub fn uninstall(&mut self) -> (old_handle: isize)
        ensures
            old_handle == old(self).spec_handle(),
            final(self).spec_handle() == 0,
            final(self).spec_has_state() == old(self).spec_has_state(),
            old(self).spec_has_state() ==> final(self).spec_session() == old(self).spec_session(),
            final(self).spec_pending_save() == old(self).spec_pending_save(),
            final(self).spec_pending_refresh() == old(self).spec_pending_refresh(),
            final(self).spec_last_app() == old(self).spec_last_app(),
            final(self).wf() == old(self).wf(),
    {
        let h = self.handle;
        self.handle = 0;
        h
    }

    /// Whether the hook is currently installed. Not proof that it is being
    /// called: the system can remove a slow hook without saying so.
    pub fn is_installed(&self) -> (r: bool)
        ensures
            r == (self.spec_handle() != 0),
    {
        self.handle != 0
    }

    /// The session, once seeded.
    pub fn session(&self) -> (r: Option<&Session>)
        ensures
            self.spec_has_state() ==> r is Some && *r.unwrap() == self.spec_session(),
            !self.spec_has_state() ==> r is None,
    {
        match &self.state {
            Some(s) => Some(&s.session),
            None => None,
        }
    }

    /// Runs `change` on the session, when there is one.
    pub fn session_mut(&mut self) -> (r: Option<&mut Session>)
        ensures
            old(self).spec_has_state() ==> r is Some && *r.unwrap() == old(self).spec_session()
                && final(self).spec_has_state() && final(self).spec_session() == *final(r.unwrap())
                && final(self).spec_pending_save() == old(self).spec_pending_save()
                && final(self).spec_pending_refresh() == old(self).spec_pending_refresh()
                && final(self).spec_last_app() == old(self).spec_last_app(),
            !old(self).spec_has_state() ==> r is None && *final(self) == *old(self),
            final(self).spec_handle() == old(self).spec_handle(),
    {
        match &mut self.state {
            Some(s) => Some(&mut s.session),
            None => None,
        }
    }

    /// Flushes the composing word because something moved the caret (a mouse
    /// click). In-memory only: it runs inside a hook callback.
    pub fn flush_session(&mut self)
        requires
            old(self).wf(),
        ensures
            final(self).wf(),
            final(self).spec_has_state() == old(self).spec_has_state(),
            old(self).spec_has_state() ==> final(self).spec_session().spec_composing() == Seq::<char>::empty()
                && final(self).spec_session().spec_settings() == old(self).spec_session().spec_settings()
                && final(self).spec_session().spec_mode() == old(self).spec_session().spec_mode()
                && final(self).spec_session().spec_list_ids() == old(self).spec_session().spec_list_ids()
                && final(self).spec_session().spec_list_removed() == old(self).spec_session().spec_list_removed()
                && final(self).spec_session().spec_suspended() == old(self).spec_session().spec_suspended()
                && final(self).spec_session().spec_frontmost() == old(self).spec_session().spec_frontmost()
                && final(self).spec_session().spec_platform() == old(self).spec_session().spec_platform(),
            !old(self).spec_has_state() ==> *final(self) == *old(self),
            final(self).spec_pending_save() == old(self).spec_pending_save(),
            final(self).spec_pending_refresh() == old(self).spec_pending_refresh(),
            final(self).spec_last_app() == old(self).spec_last_app(),
            final(self).spec_handle() == old(self).spec_handle(),
    {
        if let Some(s) = &mut self.state {
            s.session.flush();
        }
    }

    /// Marks the settings dirty from outside the callback (a menu toggle, a
    /// settings-window save): the loop writes them after the current message.
    pub fn mark_dirty(&mut self)
        ensures
            final(self).spec_pending_save() == old(self).spec_has_state(),
            final(self).spec_has_state() == old(self).spec_has_state(),
            old(self).spec_has_state() ==> final(self).spec_session() == old(self).spec_session(),
            final(self).spec_pending_refresh() == old(self).spec_pending_refresh(),
            final(self).spec_handle() == old(self).spec_handle(),
            final(self).wf() == old(self).wf(),
            final(self).spec_last_app() == old(self).spec_last_app(),
    {
        if let Some(s) = &mut self.state {
            s.pending_save = true;
        }
    }

    /// Asks the loop to repaint the tray.
    pub fn request_refresh(&mut self)
        ensures
            final(self).spec_pending_refresh() == old(self).spec_has_state(),
            final(self).spec_has_state() == old(self).spec_has_state(),
            old(self).spec_has_state() ==> final(self).spec_session() == old(self).spec_session(),
            final(self).spec_pending_save() == old(self).spec_pending_save(),
            final(self).spec_handle() == old(self).spec_handle(),
            final(self).wf() == old(self).wf(),
            final(self).spec_last_app() == old(self).spec_last_app(),
    {
        if let Some(s) = &mut self.state {
            s.pending_refresh = true;
        }
    }

    /// The loop's side of a save request: what to write, once.
    pub fn take_pending_save(&mut self) -> (r: Option<Settings>)
        ensures
            old(self).spec_pending_save() ==> r is Some && r.unwrap()@ == (SettingsModel {
                exclusions: old(self).spec_session().spec_list_ids(),
                removed_default_exclusions: old(self).spec_session().spec_list_removed(),
                ..old(self).spec_session().spec_settings()
            }),
            !old(self).spec_pending_save() ==> r is None,
            !final(self).spec_pending_save(),
            final(self).spec_has_state() == old(self).spec_has_state(),
            old(self).spec_has_state() ==> final(self).spec_session() == old(self).spec_session(),
            final(self).spec_handle() == old(self).spec_handle(),
            final(self).wf() == old(self).wf(),
    {
        match &mut self.state {
            Some(s) => {
                if s.pending_save {
                    s.pending_save = false;
                    Some(s.session.snapshot())
                } else {
                    None
                }
            },
            None => None,
        }
    }

    /// The loop's side of a repaint request: whether one is due, once.
    pub fn take_pending_refresh(&mut self) -> (r: bool)
        ensures
            r == old(self).spec_pending_refresh(),
            !final(self).spec_pending_refresh(),
            final(self).spec_pending_save() == old(self).spec_pending_save(),
            final(self).spec_has_state() == old(self).spec_has_state(),
            old(self).spec_has_state() ==> final(self).spec_session() == old(self).spec_session(),
            final(self).spec_handle() == old(self).spec_handle(),
            final(self).wf() == old(self).wf(),
    {
        match &mut self.state {
            Some(s) => {
                let r = s.pending_refresh;
                s.pending_refresh = false;
                r
            },
            None => false,
        }
    }

    /// Tells the session about the application in front, when the cache has
    /// one and it differs from the one last told.
    pub fn note_app(&mut self, app: Option<&str>)
        requires
            old(self).wf(),
        ensures
            final(self).wf(),
            final(self).spec_has_state() == old(self).spec_has_state(),
            old(self).spec_has_state() && app is Some ==> final(self).spec_last_app() == Some(app.unwrap()@)
                && final(self).spec_session().spec_frontmost() == (if old(self).spec_last_app() == Some(app.unwrap()@) {
                    old(self).spec_session().spec_frontmost()
                } else {
                    Some(app.unwrap()@)
                }),
            app is None ==> final(self).spec_last_app() == old(self).spec_last_app(),
            old(self).spec_has_state() ==> final(self).spec_session().spec_settings() == old(self).spec_session().spec_settings()
                && final(self).spec_session().spec_mode() == old(self).spec_session().spec_mode(),
            final(self).spec_pending_save() == old(self).spec_pending_save(),
            final(self).spec_handle() == old(self).spec_handle(),
    {
        if let Some(s) = &mut self.state {
            if let Some(a) = app {
                let same = match &s.last_app {
                    Some(l) => crate::text::str_eq(l.as_str(), a),
                    None => false,
                };
                if !same {
                    s.session.set_frontmost_app(a);
                    s.last_app = Some(a.to_owned());
                }
            }
        }
    }

    /// The per-application hotkey: toggles the exclusion of the application
    /// last told to the session. A session-only enabling of a terminal changes
    /// nothing persisted, so it asks for no save; every toggle asks for a
    /// repaint. `None` (nothing done) before any application is known.
    pub fn toggle_app(&mut self) -> (r: Option<ExclusionToggle>)
        requires
            old(self).wf(),
        ensures
            final(self).wf(),
            final(self).spec_has_state() == old(self).spec_has_state(),
            (old(self).spec_has_state() && old(self).spec_last_app() is Some) == (r is Some),
            r is Some ==> spec_toggled(old(self).spec_session(), final(self).spec_session(), old(self).spec_last_app().unwrap(), r.unwrap())
                && (r.unwrap() == ExclusionToggle::EnabledSessionOnly <==> (old(self).spec_session().spec_excluded_now(
                old(self).spec_last_app().unwrap(),
            ) && spec_terminals(old(self).spec_session().spec_platform()).contains(old(self).spec_last_app().unwrap())))
                && final(self).spec_session().spec_settings() == old(self).spec_session().spec_settings()
                && final(self).spec_session().spec_mode() == old(self).spec_session().spec_mode()
                && final(self).spec_session().spec_frontmost() == old(self).spec_session().spec_frontmost()
                && final(self).spec_session().spec_platform() == old(self).spec_session().spec_platform()
                && final(self).spec_last_app() == old(self).spec_last_app()
                && final(self).spec_session().spec_excluded_now(old(self).spec_last_app().unwrap())
                == (r.unwrap() == ExclusionToggle::Excluded)
                && final(self).spec_pending_refresh()
                && final(self).spec_pending_save() == (old(self).spec_pending_save()
                || r.unwrap() != ExclusionToggle::EnabledSessionOnly),
            r is None ==> *final(self) == *old(self),
            final(self).spec_handle() == old(self).spec_handle(),
    {
        match &mut self.state {
            Some(s) => {
                match &s.last_app {
                    Some(app) => {
                        let outcome = s.session.toggle_app_exclusion(app.as_str());
                        if outcome != ExclusionToggle::EnabledSessionOnly {
                            s.pending_save = true;
                        }
                        s.pending_refresh = true;
                        Some(outcome)
                    },
                    None => None,
                }
            },
            None => None,
        }
    }

    /// Whether this callback's key is examined (the rest pass through).
    pub fn examines(&self, code: i32, message: u32, extra_info: usize) -> (r: bool)
        ensures
            r == spec_examines(code, message, extra_info, self.spec_has_state()),
    {
        if code != 0 {
            return false;
        }
        if crate::windows::inject::is_own_event(extra_info) {
            return false;
        }
        if message != WM_KEYDOWN && message != WM_SYSKEYDOWN {
            return false;
        }
        self.state.is_some()
    }

    /// Carries out what the policy asked of the platform: a save request and
    /// a repaint request, each left for the loop.
    pub fn carry_out_effects(&mut self, effects: &Effects)
        ensures
            final(self).spec_pending_save() == (old(self).spec_pending_save() || (effects.save_settings
                && old(self).spec_has_state())),
            final(self).spec_pending_refresh() == (old(self).spec_pending_refresh() || (effects.refresh_glyph
                && old(self).spec_has_state())),
            final(self).spec_has_state() == old(self).spec_has_state(),
            old(self).spec_has_state() ==> final(self).spec_session() == old(self).spec_session(),
            final(self).spec_last_app() == old(self).spec_last_app(),
            final(self).spec_handle() == old(self).spec_handle(),
            final(self).wf() == old(self).wf(),
    {
        if effects.save_settings {
            self.mark_dirty();
        }
        if effects.refresh_glyph {
            self.request_refresh();
        }
    }

    /// Carries out a decision: whether to swallow the original key, the events
    /// to inject, and, for the per-application hotkey, what the toggle did
    /// (`None` before any application is known: the key is still swallowed).
    pub fn carry_out(&mut self, decision: &KeyDecision, vk: u16, focus_is_omnibox: bool) -> (r: (
        bool,
        Vec<KeyInput>,
        Option<ExclusionToggle>,
    ))
        requires
            old(self).wf(),
        ensures
            final(self).wf(),
            r.0 == !(decision is Passthrough),
            r.1@ == spec_carried_inputs(*decision, old(self).spec_last_app(), vk, focus_is_omnibox),
            !(decision is ToggleApp) ==> *final(self) == *old(self) && r.2 is None,
            decision is ToggleApp ==> {
                &&& final(self).spec_has_state() == old(self).spec_has_state()
                &&& (old(self).spec_has_state() && old(self).spec_last_app() is Some) == (r.2 is Some)
                &&& r.2 is Some ==> spec_toggled(
                    old(self).spec_session(),
                    final(self).spec_session(),
                    old(self).spec_last_app().unwrap(),
                    r.2.unwrap(),
                ) && (r.2.unwrap() == ExclusionToggle::EnabledSessionOnly <==> (
                old(self).spec_session().spec_excluded_now(old(self).spec_last_app().unwrap())
                    && spec_terminals(old(self).spec_session().spec_platform()).contains(old(self).spec_last_app().unwrap())))
                    && final(self).spec_session().spec_settings() == old(self).spec_session().spec_settings()
                    && final(self).spec_session().spec_mode() == old(self).spec_session().spec_mode()
                    && final(self).spec_session().spec_frontmost() == old(self).spec_session().spec_frontmost()
                    && final(self).spec_session().spec_platform() == old(self).spec_session().spec_platform()
                    && final(self).spec_last_app() == old(self).spec_last_app()
                    && final(self).spec_session().spec_excluded_now(old(self).spec_last_app().unwrap())
                    == (r.2.unwrap() == ExclusionToggle::Excluded) && final(self).spec_pending_refresh()
                    && final(self).spec_pending_save() == (old(self).spec_pending_save() || r.2.unwrap()
                    != ExclusionToggle::EnabledSessionOnly)
                &&& r.2 is None ==> *final(self) == *old(self)
                &&& final(self).spec_handle() == old(self).spec_handle()
            },
    {
        match decision {
            KeyDecision::Passthrough => (false, Vec::new(), None),
            KeyDecision::Consume => (true, Vec::new(), None),
            KeyDecision::ToggleApp => {
                let outcome = self.toggle_app();
                (true, Vec::new(), outcome)
            },
            KeyDecision::Emit { backspaces, insert } => {
                let app: Option<&str> = match &self.state {
                    Some(s) => match &s.last_app {
                        Some(a) => Some(a.as_str()),
                        None => None,
                    },
                    None => None,
                };
                let inputs = emit_edit(*backspaces, insert.as_str(), app, focus_is_omnibox);
                (true, inputs, None)
            },
            KeyDecision::EmitThenReplayKey { backspaces, insert } => {
                let app: Option<&str> = match &self.state {
                    Some(s) => match &s.last_app {
                        Some(a) => Some(a.as_str()),
                        None => None,
                    },
                    None => None,
                };
                let mut inputs = emit_edit(*backspaces, insert.as_str(), app, focus_is_omnibox);
                let mut replay = replay_key(vk);
                inputs.append(&mut replay);
                (true, inputs, None)
            },
        }
    }
}

/// How slow a callback must be before a new worst case is worth a line:
/// far below the system's hook timeout, so the warning comes while there is
/// still margin.
pub const SLOW_CALLBACK_MICROS: u64 = 10_000;

/// The slowest callback so far.
pub struct CallbackTiming {
    worst_micros: u64,
}

impl CallbackTiming {
    /// The slowest callback so far, in microseconds.
    pub closed spec fn spec_worst(&self) -> u64 {
        self.worst_micros
    }

    /// No callback timed yet.
    pub fn new() -> (r: Self)
        ensures
            r.spec_worst() == 0,
    {
        CallbackTiming { worst_micros: 0 }
    }

    /// Records one callback's duration. Only a new worst case above the
    /// threshold is reported: a line per keystroke would be noise, and the
    /// maximum is the number that loses the hook.
    pub fn record(&mut self, micros: u64) -> (log: bool)
        ensures
            final(self).spec_worst() == if micros > old(self).spec_worst() { micros } else { old(self).spec_worst() },
            log == (micros > old(self).spec_worst() && micros > SLOW_CALLBACK_MICROS),
    {
        if micros > self.worst_micros {
            self.worst_micros = micros;
            micros > SLOW_CALLBACK_MICROS
        } else {
            false
        }
    }
}

} // verus!
