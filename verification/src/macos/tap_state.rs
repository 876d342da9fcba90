//! The macOS event tap's settings surface: the accessors the menu bar and
//! the Settings window call, each one saving as it changes. Saving here marks
//! the settings as unsaved; the shell writes [`TapState::take_save`]'s value to
//! the settings file.
use vstd::prelude::*;

use crate::default_exclusions::Platform;
use crate::keys::{Key, KeyEvent};
use crate::macro_import::{MacroConflict, spec_conflicts, spec_import};
use crate::editing::{keys_position, shortcut_position, spec_upsert_macro, spec_validate_macro, spec_upsert_word};
use crate::session::{ExclusionToggle, Session, same_runtime};
use crate::settings::{HotkeyPreset, InputMethod, InputMode, Language, Macro, MacroModel, PlacementStyle, Settings, SettingsModel, WordOverride, WordPreference, macros_view, strings_view, words_view};

verus! {

/// What the tap does with a key-down: let it through, or swallow it.
#[derive(Clone, Copy, Debug, PartialEq, Eq, Structural)]
pub enum Decision {
    Passthrough,
    Consume,
}

/// What a key-down means to an armed hotkey recorder.
#[derive(Clone, Copy, Debug, PartialEq, Eq, Structural)]
pub enum Capture {
    /// Not a candidate: the key goes through.
    Passthrough,
    /// Escape: stop recording.
    Cancel,
    /// GlowKey's own combination: swallowed, still recording.
    Reserved,
    /// The new hotkey, with the character its key types.
    Captured(char),
}

/// The character a recorded hotkey is named by: the letter, a space for the
/// space bar, else the character the key typed.
pub open spec fn spec_key_char(key: KeyEvent) -> Option<char> {
    match key.key {
        Key::Letter(c) => Some(c),
        Key::Space => Some(' '),
        _ => key.ch,
    }
}

/// What a key-down means to an armed recorder.
pub open spec fn spec_capture(key: KeyEvent) -> Capture {
    if key.key == Key::Escape {
        Capture::Cancel
    } else if (key.mods.control || key.mods.option) && !key.mods.command && spec_key_char(key) is Some {
        let c = spec_key_char(key).unwrap();
        if key.mods.control && key.mods.shift && !key.mods.option && (c == 'e' || c == 'w') {
            Capture::Reserved
        } else {
            Capture::Captured(c)
        }
    } else {
        Capture::Passthrough
    }
}

/// Whether the recorder swallows the key.
pub open spec fn spec_capture_decision(key: KeyEvent) -> Decision {
    if spec_capture(key) == Capture::Passthrough { Decision::Passthrough } else { Decision::Consume }
}

/// What a key-down means to an armed hotkey recorder.
pub fn capture(key: &KeyEvent) -> (r: Capture)
    ensures
        r == spec_capture(*key),
{
    if key.key == Key::Escape {
        return Capture::Cancel;
    }
    let key_char = match key.key {
        Key::Letter(c) => Some(c),
        Key::Space => Some(' '),
        _ => key.ch,
    };
    if (key.mods.control || key.mods.option) && !key.mods.command {
        match key_char {
            Some(c) => {
                if key.mods.control && key.mods.shift && !key.mods.option && (c == 'e' || c == 'w') {
                    Capture::Reserved
                } else {
                    Capture::Captured(c)
                }
            },
            None => Capture::Passthrough,
        }
    } else {
        Capture::Passthrough
    }
}

/// The tap's state: the session, the hotkey recorder, the runaway breaker and
/// its recent-emit history, and whether the settings need writing.
pub struct TapState {
    session: Session,
    recording_hotkey: bool,
    disabled: bool,
    recent_emits: Vec<u64>,
    unsaved: bool,
}

impl TapState {
    /// The session.
    pub closed spec fn spec_session(&self) -> Session {
        self.session
    }

    /// Whether the next key-down is being recorded as the toggle hotkey.
    pub closed spec fn spec_recording_hotkey(&self) -> bool {
        self.recording_hotkey
    }

    /// Whether the runaway breaker has latched.
    pub closed spec fn spec_disabled(&self) -> bool {
        self.disabled
    }

    /// The breaker's record of recent emits.
    pub closed spec fn spec_recent_emits(&self) -> Seq<u64> {
        self.recent_emits@
    }

    /// Whether a change is waiting to be written to the settings file.
    pub closed spec fn spec_unsaved(&self) -> bool {
        self.unsaved
    }

    /// The session's consistency.
    pub closed spec fn wf(&self) -> bool {
        self.session.wf()
    }

    /// A tap over saved settings, with the macOS tables.
    pub fn new(settings: &Settings) -> (r: TapState)
        ensures
            r.wf(),
            r.spec_session().spec_settings() == settings@,
            r.spec_session().spec_platform() == Platform::MacOs,
            r.spec_session().spec_mode() == InputMode::Vietnamese,
            !r.spec_recording_hotkey(),
            !r.spec_disabled(),
            !r.spec_unsaved(),
    {
        TapState {
            session: Session::from_settings(settings, Platform::MacOs),
            recording_hotkey: false,
            disabled: false,
            recent_emits: Vec::new(),
            unsaved: false,
        }
    }

    fn save_settings(&mut self)
        ensures
            final(self).spec_unsaved(),
            final(self).spec_session() == old(self).spec_session(),
            final(self).spec_recording_hotkey() == old(self).spec_recording_hotkey(),
            final(self).spec_disabled() == old(self).spec_disabled(),
            final(self).spec_recent_emits() == old(self).spec_recent_emits(),
    {
        self.unsaved = true;
    }

    /// What to write to the settings file, when something changed since the
    /// last write; afterwards nothing is pending.
    pub fn take_save(&mut self) -> (r: Option<Settings>)
        ensures
            old(self).spec_unsaved() ==> r is Some && r.unwrap()@ == (SettingsModel {
                exclusions: old(self).spec_session().spec_list_ids(),
                removed_default_exclusions: old(self).spec_session().spec_list_removed(),
                ..old(self).spec_session().spec_settings()
            }),
            !old(self).spec_unsaved() ==> r is None,
            !final(self).spec_unsaved(),
            final(self).spec_session() == old(self).spec_session(),
            final(self).spec_recording_hotkey() == old(self).spec_recording_hotkey(),
    {
        if self.unsaved {
            self.unsaved = false;
            Some(self.session.snapshot())
        } else {
            None
        }
    }

    /// The session, for the key path.
    pub fn session(&self) -> (r: &Session)
        ensures
            *r == self.spec_session(),
    {
        &self.session
    }

    /// Toggles VN/EN mode and saves. Used by the menu bar.
    pub fn toggle_mode_and_save(&mut self)
        requires
            old(self).wf(),
        ensures
            final(self).wf(),
            final(self).spec_session().spec_mode() != old(self).spec_session().spec_mode(),
            final(self).spec_session().spec_settings() == old(self).spec_session().spec_settings(),
            final(self).spec_session().spec_frontmost() == old(self).spec_session().spec_frontmost(),
            final(self).spec_session().spec_list_ids() == old(self).spec_session().spec_list_ids(),
            final(self).spec_unsaved(),
    {
        self.session.toggle_mode();
        self.save_settings();
    }

    /// Toggles auto-fix and saves. Used by the menu bar.
    pub fn toggle_auto_fix_and_save(&mut self)
        requires
            old(self).wf(),
        ensures
            final(self).wf(),
            final(self).spec_session().spec_settings() == (SettingsModel {
                auto_fix: !old(self).spec_session().spec_settings().auto_fix,
                ..old(self).spec_session().spec_settings()
            }),
            same_runtime(old(self).spec_session(), final(self).spec_session()),
            final(self).spec_unsaved(),
    {
        let on = self.session.auto_fix();
        self.session.set_auto_fix(!on);
        self.save_settings();
    }

    /// Toggles one application's exclusion (per app and independent) and
    /// saves. Used by the menu bar's "Enable/Disable for <App>" action.
    pub fn toggle_app_exclusion_and_save(&mut self, bundle_id: &str) -> (r: ExclusionToggle)
        requires
            old(self).wf(),
        ensures
            final(self).wf(),
            final(self).spec_session().spec_excluded_now(bundle_id@) == (r == ExclusionToggle::Excluded),
            old(self).spec_session().spec_excluded_now(bundle_id@) == (r != ExclusionToggle::Excluded),
            forall|x: Seq<char>| x != bundle_id@ ==> (#[trigger] final(self).spec_session().spec_excluded_now(x)
                == old(self).spec_session().spec_excluded_now(x)),
            final(self).spec_session().spec_settings() == old(self).spec_session().spec_settings(),
            final(self).spec_unsaved(),
    {
        let r = self.session.toggle_app_exclusion(bundle_id);
        self.save_settings();
        r
    }

    /// Current state for menu labels: the mode, whether auto-fix is on, and
    /// whether `bundle_id` is excluded right now.
    pub fn menu_state(&self, bundle_id: &str) -> (r: (InputMode, bool, bool))
        ensures
            r == (
                self.spec_session().spec_mode(),
                self.spec_session().spec_settings().auto_fix,
                self.spec_session().spec_excluded_now(bundle_id@),
            ),
    {
        (self.session.mode(), self.session.auto_fix(), self.session.is_excluded_now(bundle_id))
    }

    /// The identities currently on the ignore list, each once. Drives the
    /// Settings window's "Excluded apps" list.
    pub fn exclusion_ids(&self) -> (r: Vec<String>)
        ensures
            strings_view(r@) == self.spec_session().spec_list_ids(),
            self.wf() ==> crate::order::strictly_sorted(strings_view(r@)),
    {
        self.session.exclusion_ids()
    }

    /// Adds an application to the ignore list and saves. Idempotent.
    pub fn add_exclusion_and_save(&mut self, bundle_id: &str)
        requires
            old(self).wf(),
        ensures
            final(self).wf(),
            forall|x: Seq<char>| #[trigger] final(self).spec_session().spec_list_ids().contains(x) <==> (old(
                self,
            ).spec_session().spec_list_ids().contains(x) || x == bundle_id@),
            final(self).spec_session().spec_excluded_now(bundle_id@),
            final(self).spec_session().spec_settings() == old(self).spec_session().spec_settings(),
            final(self).spec_unsaved(),
    {
        self.session.add_exclusion(bundle_id);
        self.save_settings();
    }

    /// Removes an application from the ignore list (re-enabling Vietnamese
    /// there) and saves.
    pub fn remove_exclusion_and_save(&mut self, bundle_id: &str)
        requires
            old(self).wf(),
        ensures
            final(self).wf(),
            forall|x: Seq<char>| #[trigger] final(self).spec_session().spec_list_ids().contains(x) <==> (old(
                self,
            ).spec_session().spec_list_ids().contains(x) && x != bundle_id@),
            !final(self).spec_session().spec_excluded_now(bundle_id@),
            final(self).spec_session().spec_settings() == old(self).spec_session().spec_settings(),
            final(self).spec_unsaved(),
    {
        self.session.remove_exclusion(bundle_id);
        self.save_settings();
    }

    /// Starts recording a custom toggle hotkey: the next qualifying key-down
    /// becomes the hotkey.
    pub fn begin_hotkey_recording(&mut self)
        ensures
            final(self).spec_recording_hotkey(),
            final(self).spec_session() == old(self).spec_session(),
            final(self).spec_unsaved() == old(self).spec_unsaved(),
    {
        self.recording_hotkey = true;
    }

    /// Whether a hotkey recording is in progress.
    pub fn is_recording_hotkey(&self) -> (r: bool)
        ensures
            r == self.spec_recording_hotkey(),
    {
        self.recording_hotkey
    }

    /// Whether a macro shortcut is already taken (ignoring ASCII case), so the
    /// window can ask before overwriting it.
    pub fn has_macro(&self, shortcut: &str) -> (r: bool)
        ensures
            r == (shortcut_position(self.spec_session().spec_settings().macros, crate::text::trim(shortcut@)) >= 0),
    {
        self.session.has_macro(shortcut)
    }

    /// The text-expansion macros, for the Settings list.
    pub fn macros(&self) -> (r: Vec<Macro>)
        ensures
            macros_view(r@) == self.spec_session().spec_settings().macros,
    {
        self.session.macros()
    }

    /// Adds (or replaces) a macro and saves. Returns whether it was accepted;
    /// a refused macro changes and saves nothing.
    pub fn add_macro_and_save(&mut self, shortcut: &str, expansion: &str) -> (ok: bool)
        requires
            old(self).wf(),
        ensures
            final(self).wf(),
            ok == (spec_validate_macro(shortcut@, expansion@) is Some),
            ok ==> final(self).spec_session().spec_settings() == (SettingsModel {
                macros: spec_upsert_macro(
                    old(self).spec_session().spec_settings().macros,
                    MacroModel {
                        shortcut: spec_validate_macro(shortcut@, expansion@).unwrap().0,
                        expansion: spec_validate_macro(shortcut@, expansion@).unwrap().1,
                    },
                    None,
                ),
                ..old(self).spec_session().spec_settings()
            }) && final(self).spec_unsaved(),
            !ok ==> final(self).spec_session().spec_settings() == old(self).spec_session().spec_settings()
                && final(self).spec_unsaved() == old(self).spec_unsaved(),
            same_runtime(old(self).spec_session(), final(self).spec_session()),
    {
        let ok = self.session.add_macro(shortcut, expansion);
        if ok {
            self.save_settings();
        }
        ok
    }

    /// How many rows of an import would overwrite an existing shortcut.
    pub fn macro_conflicts(&self, imported: &Vec<Macro>) -> (r: usize)
        ensures
            r == spec_conflicts(self.spec_session().spec_settings().macros, macros_view(imported@)),
    {
        self.session.macro_conflicts(imported)
    }

    /// Merges an imported macro table and saves, returning `(added,
    /// skipped)`.
    pub fn import_macros_and_save(&mut self, imported: &Vec<Macro>, on_conflict: MacroConflict) -> (r: (usize, usize))
        requires
            old(self).wf(),
        ensures
            final(self).wf(),
            final(self).spec_session().spec_settings() == (SettingsModel {
                macros: spec_import(old(self).spec_session().spec_settings().macros, macros_view(imported@), on_conflict).0,
                ..old(self).spec_session().spec_settings()
            }),
            r.0 == spec_import(old(self).spec_session().spec_settings().macros, macros_view(imported@), on_conflict).1,
            r.1 == spec_import(old(self).spec_session().spec_settings().macros, macros_view(imported@), on_conflict).2,
            same_runtime(old(self).spec_session(), final(self).spec_session()),
            final(self).spec_unsaved(),
    {
        let r = self.session.import_macros(imported, on_conflict);
        self.save_settings();
        r
    }

    /// Removes the macro at `index` (none past the end) and saves.
    pub fn remove_macro_and_save(&mut self, index: usize)
        requires
            old(self).wf(),
        ensures
            final(self).wf(),
            final(self).spec_session().spec_settings() == (SettingsModel {
                macros: if index < old(self).spec_session().spec_settings().macros.len() {
                    old(self).spec_session().spec_settings().macros.remove(index as int)
                } else {
                    old(self).spec_session().spec_settings().macros
                },
                ..old(self).spec_session().spec_settings()
            }),
            same_runtime(old(self).spec_session(), final(self).spec_session()),
            final(self).spec_unsaved(),
    {
        self.session.remove_macro(index);
        self.save_settings();
    }

    /// Clears the runaway breaker, its history and any half-typed word (the
    /// "Reset input" menu item).
    pub fn reset(&mut self)
        requires
            old(self).wf(),
        ensures
            final(self).wf(),
            !final(self).spec_disabled(),
            final(self).spec_recent_emits() == Seq::<u64>::empty(),
            final(self).spec_session().spec_composing() == Seq::<char>::empty(),
            final(self).spec_session().spec_settings() == old(self).spec_session().spec_settings(),
            final(self).spec_session().spec_mode() == old(self).spec_session().spec_mode(),
            final(self).spec_session().spec_list_ids() == old(self).spec_session().spec_list_ids(),
            final(self).spec_session().spec_list_removed() == old(self).spec_session().spec_list_removed(),
            final(self).spec_session().spec_suspended() == old(self).spec_session().spec_suspended(),
            final(self).spec_session().spec_frontmost() == old(self).spec_session().spec_frontmost(),
            final(self).spec_session().spec_platform() == old(self).spec_session().spec_platform(),
            final(self).spec_recording_hotkey() == old(self).spec_recording_hotkey(),
            final(self).spec_unsaved() == old(self).spec_unsaved(),
    {
        self.disabled = false;
        self.recent_emits = Vec::new();
        self.session.flush();
        assert(self.recent_emits@ =~= Seq::<u64>::empty());
    }

    /// Every recorded word decision, for the Personal Words window.
    pub fn word_overrides(&self) -> (r: Vec<WordOverride>)
        ensures
            words_view(r@) == self.spec_session().spec_settings().word_overrides,
    {
        self.session.word_override_list()
    }

    /// The decision recorded for `keys`, if any.
    pub fn word_override(&self, keys: &str) -> (r: Option<WordPreference>)
        ensures
            keys_position(self.spec_session().spec_settings().word_overrides, keys@) >= 0 ==> r == Some(
                self.spec_session().spec_settings().word_overrides[keys_position(
                    self.spec_session().spec_settings().word_overrides,
                    keys@,
                )].prefer,
            ),
            keys_position(self.spec_session().spec_settings().word_overrides, keys@) < 0 ==> r is None,
    {
        self.session.word_override(keys)
    }

    /// Records a word decision and saves.
    pub fn set_word_override_and_save(&mut self, keys: &str, prefer: WordPreference)
        requires
            old(self).wf(),
        ensures
            final(self).wf(),
            final(self).spec_session().spec_settings() == (SettingsModel {
                word_overrides: spec_upsert_word(old(self).spec_session().spec_settings().word_overrides, keys@, prefer, None),
                ..old(self).spec_session().spec_settings()
            }),
            same_runtime(old(self).spec_session(), final(self).spec_session()),
            final(self).spec_unsaved(),
    {
        self.session.set_word_override(keys, prefer);
        self.save_settings();
    }

    /// Forgets a word decision and saves.
    pub fn remove_word_override_and_save(&mut self, keys: &str)
        requires
            old(self).wf(),
        ensures
            final(self).wf(),
            final(self).spec_session().spec_settings() == (SettingsModel {
                word_overrides: if keys_position(old(self).spec_session().spec_settings().word_overrides, keys@) >= 0 {
                    old(self).spec_session().spec_settings().word_overrides.remove(
                        keys_position(old(self).spec_session().spec_settings().word_overrides, keys@),
                    )
                } else {
                    old(self).spec_session().spec_settings().word_overrides
                },
                ..old(self).spec_session().spec_settings()
            }),
            same_runtime(old(self).spec_session(), final(self).spec_session()),
            final(self).spec_unsaved(),
    {
        self.session.remove_word_override(keys);
        self.save_settings();
    }

    /// Whether auto-fix (restore invalid Vietnamese to the raw keys) is on.
    pub fn auto_fix(&self) -> (r: bool)
        ensures
            r == self.spec_session().spec_settings().auto_fix,
    {
        self.session.auto_fix()
    }

    /// Sets `auto_fix` and saves.
    pub fn set_auto_fix_and_save(&mut self, on: bool)
        requires
            old(self).wf(),
        ensures
            final(self).wf(),
            final(self).spec_session().spec_settings() == (SettingsModel { auto_fix: on, ..old(self).spec_session().spec_settings() }),
            same_runtime(old(self).spec_session(), final(self).spec_session()),
            final(self).spec_unsaved(),
            final(self).spec_recording_hotkey() == old(self).spec_recording_hotkey(),
    {
        self.session.set_auto_fix(on);
        self.save_settings();
    }

    /// Whether auto-capitalize (first letter of each sentence) is on.
    pub fn auto_capitalize(&self) -> (r: bool)
        ensures
            r == self.spec_session().spec_settings().auto_capitalize,
    {
        self.session.auto_capitalize()
    }

    /// Sets `auto_capitalize` and saves.
    pub fn set_auto_capitalize_and_save(&mut self, on: bool)
        requires
            old(self).wf(),
        ensures
            final(self).wf(),
            final(self).spec_session().spec_settings() == (SettingsModel { auto_capitalize: on, ..old(self).spec_session().spec_settings() }),
            same_runtime(old(self).spec_session(), final(self).spec_session()),
            final(self).spec_unsaved(),
            final(self).spec_recording_hotkey() == old(self).spec_recording_hotkey(),
    {
        self.session.set_auto_capitalize(on);
        self.save_settings();
    }

    /// Whether the Settings window should open on launch.
    pub fn open_settings_at_launch(&self) -> (r: bool)
        ensures
            r == self.spec_session().spec_settings().open_settings_at_launch,
    {
        self.session.open_settings_at_launch()
    }

    /// Sets `open_settings_at_launch` and saves.
    pub fn set_open_settings_at_launch_and_save(&mut self, on: bool)
        requires
            old(self).wf(),
        ensures
            final(self).wf(),
            final(self).spec_session().spec_settings() == (SettingsModel { open_settings_at_launch: on, ..old(self).spec_session().spec_settings() }),
            same_runtime(old(self).spec_session(), final(self).spec_session()),
            final(self).spec_unsaved(),
            final(self).spec_recording_hotkey() == old(self).spec_recording_hotkey(),
    {
        self.session.set_open_settings_at_launch(on);
        self.save_settings();
    }

    /// Whether the opt-in English word restore is on.
    pub fn restore_english_words(&self) -> (r: bool)
        ensures
            r == self.spec_session().spec_settings().restore_english_words,
    {
        self.session.restore_english_words()
    }

    /// Sets `restore_english_words` and saves.
    pub fn set_restore_english_words_and_save(&mut self, on: bool)
        requires
            old(self).wf(),
        ensures
            final(self).wf(),
            final(self).spec_session().spec_settings() == (SettingsModel { restore_english_words: on, ..old(self).spec_session().spec_settings() }),
            same_runtime(old(self).spec_session(), final(self).spec_session()),
            final(self).spec_unsaved(),
            final(self).spec_recording_hotkey() == old(self).spec_recording_hotkey(),
    {
        self.session.set_restore_english_words(on);
        self.save_settings();
    }

    /// Whether macros expand while Vietnamese is off.
    pub fn always_macro(&self) -> (r: bool)
        ensures
            r == self.spec_session().spec_settings().always_macro,
    {
        self.session.always_macro()
    }

    /// Sets `always_macro` and saves.
    pub fn set_always_macro_and_save(&mut self, on: bool)
        requires
            old(self).wf(),
        ensures
            final(self).wf(),
            final(self).spec_session().spec_settings() == (SettingsModel { always_macro: on, ..old(self).spec_session().spec_settings() }),
            same_runtime(old(self).spec_session(), final(self).spec_session()),
            final(self).spec_unsaved(),
            final(self).spec_recording_hotkey() == old(self).spec_recording_hotkey(),
    {
        self.session.set_always_macro(on);
        self.save_settings();
    }

    /// Whether the mid-word spell check is on.
    pub fn strict_spell_check(&self) -> (r: bool)
        ensures
            r == self.spec_session().spec_settings().strict_spell_check,
    {
        self.session.strict_spell_check()
    }

    /// Sets `strict_spell_check` and saves.
    pub fn set_strict_spell_check_and_save(&mut self, on: bool)
        requires
            old(self).wf(),
        ensures
            final(self).wf(),
            final(self).spec_session().spec_settings() == (SettingsModel { strict_spell_check: on, ..old(self).spec_session().spec_settings() }),
            same_runtime(old(self).spec_session(), final(self).spec_session()),
            final(self).spec_unsaved(),
            final(self).spec_recording_hotkey() == old(self).spec_recording_hotkey(),
    {
        self.session.set_strict_spell_check(on);
        self.save_settings();
    }

    /// Whether the Telex bracket shortcuts are on.
    pub fn telex_brackets(&self) -> (r: bool)
        ensures
            r == self.spec_session().spec_settings().telex_brackets,
    {
        self.session.telex_brackets()
    }

    /// Sets `telex_brackets` and saves.
    pub fn set_telex_brackets_and_save(&mut self, on: bool)
        requires
            old(self).wf(),
        ensures
            final(self).wf(),
            final(self).spec_session().spec_settings() == (SettingsModel { telex_brackets: on, ..old(self).spec_session().spec_settings() }),
            same_runtime(old(self).spec_session(), final(self).spec_session()),
            final(self).spec_unsaved(),
            final(self).spec_recording_hotkey() == old(self).spec_recording_hotkey(),
    {
        self.session.set_telex_brackets(on);
        self.save_settings();
    }

    /// Whether Quick Telex is on.
    pub fn quick_telex(&self) -> (r: bool)
        ensures
            r == self.spec_session().spec_settings().quick_telex,
    {
        self.session.quick_telex()
    }

    /// Sets `quick_telex` and saves.
    pub fn set_quick_telex_and_save(&mut self, on: bool)
        requires
            old(self).wf(),
        ensures
            final(self).wf(),
            final(self).spec_session().spec_settings() == (SettingsModel { quick_telex: on, ..old(self).spec_session().spec_settings() }),
            same_runtime(old(self).spec_session(), final(self).spec_session()),
            final(self).spec_unsaved(),
            final(self).spec_recording_hotkey() == old(self).spec_recording_hotkey(),
    {
        self.session.set_quick_telex(on);
        self.save_settings();
    }

    /// The current input method (Telex/VNI).
    pub fn input_method(&self) -> (r: InputMethod)
        ensures
            r == self.spec_session().spec_settings().input_method,
    {
        self.session.input_method()
    }

    /// Sets `input_method` and saves.
    pub fn set_input_method_and_save(&mut self, value: InputMethod)
        requires
            old(self).wf(),
        ensures
            final(self).wf(),
            final(self).spec_session().spec_settings() == (SettingsModel { input_method: value, ..old(self).spec_session().spec_settings() }),
            same_runtime(old(self).spec_session(), final(self).spec_session()),
            final(self).spec_unsaved(),
            final(self).spec_recording_hotkey() == old(self).spec_recording_hotkey(),
    {
        self.session.set_input_method(value);
        self.save_settings();
    }

    /// The current toggle-hotkey preset.
    pub fn toggle_hotkey(&self) -> (r: HotkeyPreset)
        ensures
            r == self.spec_session().spec_settings().toggle_hotkey,
    {
        self.session.toggle_hotkey()
    }

    /// Sets `toggle_hotkey` and saves.
    pub fn set_toggle_hotkey_and_save(&mut self, value: HotkeyPreset)
        requires
            old(self).wf(),
        ensures
            final(self).wf(),
            final(self).spec_session().spec_settings() == (SettingsModel { toggle_hotkey: value, ..old(self).spec_session().spec_settings() }),
            same_runtime(old(self).spec_session(), final(self).spec_session()),
            final(self).spec_unsaved(),
            final(self).spec_recording_hotkey() == old(self).spec_recording_hotkey(),
    {
        self.session.set_toggle_hotkey(value);
        self.save_settings();
    }

    /// The user-interface language preference.
    pub fn language(&self) -> (r: Language)
        ensures
            r == self.spec_session().spec_settings().language,
    {
        self.session.language()
    }

    /// Sets `language` and saves.
    pub fn set_language_and_save(&mut self, value: Language)
        requires
            old(self).wf(),
        ensures
            final(self).wf(),
            final(self).spec_session().spec_settings() == (SettingsModel { language: value, ..old(self).spec_session().spec_settings() }),
            same_runtime(old(self).spec_session(), final(self).spec_session()),
            final(self).spec_unsaved(),
            final(self).spec_recording_hotkey() == old(self).spec_recording_hotkey(),
    {
        self.session.set_language(value);
        self.save_settings();
    }

    /// The current tone-placement style.
    pub fn style(&self) -> (r: PlacementStyle)
        ensures
            r == self.spec_session().spec_settings().style,
    {
        self.session.style()
    }

    /// Sets `style` and saves.
    pub fn set_style_and_save(&mut self, value: PlacementStyle)
        requires
            old(self).wf(),
        ensures
            final(self).wf(),
            final(self).spec_session().spec_settings() == (SettingsModel { style: value, ..old(self).spec_session().spec_settings() }),
            same_runtime(old(self).spec_session(), final(self).spec_session()),
            final(self).spec_unsaved(),
            final(self).spec_recording_hotkey() == old(self).spec_recording_hotkey(),
    {
        self.session.set_style(value);
        self.save_settings();
    }

    /// Whether the mouse or a caret move ended the word: the word in progress
    /// is committed as typed, and an armed hotkey recorder is cancelled, so a
    /// forgotten recording cannot capture a later combination.
    pub fn flush(&mut self)
        requires
            old(self).wf(),
        ensures
            final(self).wf(),
            !final(self).spec_recording_hotkey(),
            final(self).spec_session().spec_composing() == Seq::<char>::empty(),
            final(self).spec_session().spec_settings() == old(self).spec_session().spec_settings(),
            final(self).spec_session().spec_mode() == old(self).spec_session().spec_mode(),
            final(self).spec_unsaved() == old(self).spec_unsaved(),
    {
        self.session.flush();
        self.recording_hotkey = false;
    }

    /// One key-down while a hotkey recording is armed. Escape cancels it; a
    /// combination with ⌃ or ⌥ and without ⌘ becomes the toggle hotkey (with
    /// this platform's key code) and ends the recording, except ⌃⇧E and ⌃⇧W,
    /// which are GlowKey's own and are swallowed while recording continues.
    /// Every other key passes through, so an armed recorder never blocks
    /// typing or a ⌘ shortcut.
    pub fn capture_hotkey(&mut self, key: &KeyEvent) -> (r: Decision)
        requires
            old(self).wf(),
        ensures
            final(self).wf(),
            r == spec_capture_decision(*key),
            spec_capture(*key) == Capture::Cancel ==> !final(self).spec_recording_hotkey()
                && final(self).spec_session().spec_settings() == old(self).spec_session().spec_settings(),
            spec_capture(*key) == Capture::Passthrough || spec_capture(*key) == Capture::Reserved
                ==> final(self).spec_recording_hotkey() == old(self).spec_recording_hotkey()
                && final(self).spec_session().spec_settings() == old(self).spec_session().spec_settings(),
            spec_capture(*key) is Captured ==> !final(self).spec_recording_hotkey()
                && final(self).spec_unsaved()
                && final(self).spec_session().spec_settings() == (SettingsModel {
                    toggle_hotkey: HotkeyPreset::Custom {
                        control: key.mods.control,
                        shift: key.mods.shift,
                        option: key.mods.option,
                        key_char: spec_capture(*key)->Captured_0,
                        raw_code: Some(key.raw_code),
                    },
                    ..old(self).spec_session().spec_settings()
                }),
            same_runtime(old(self).spec_session(), final(self).spec_session()),
    {
        match capture(key) {
            Capture::Passthrough => Decision::Passthrough,
            Capture::Cancel => {
                self.recording_hotkey = false;
                Decision::Consume
            },
            Capture::Reserved => Decision::Consume,
            Capture::Captured(key_char) => {
                let preset = HotkeyPreset::Custom {
                    control: key.mods.control,
                    shift: key.mods.shift,
                    option: key.mods.option,
                    key_char,
                    raw_code: Some(key.raw_code),
                };
                self.session.set_toggle_hotkey(preset);
                self.recording_hotkey = false;
                self.save_settings();
                Decision::Consume
            },
        }
    }
}

/// A macro the Settings window just added is found by its shortcut, so the
/// window's "already taken?" question answers yes for it (both sides trim
/// the shortcut).
pub proof fn a_macro_just_added_is_found(before: TapState, after: TapState, shortcut: Seq<char>, expansion: Seq<char>)
    requires
        spec_validate_macro(shortcut, expansion) is Some,
        after.spec_session().spec_settings() == (SettingsModel {
            macros: spec_upsert_macro(
                before.spec_session().spec_settings().macros,
                MacroModel {
                    shortcut: spec_validate_macro(shortcut, expansion).unwrap().0,
                    expansion: spec_validate_macro(shortcut, expansion).unwrap().1,
                },
                None,
            ),
            ..before.spec_session().spec_settings()
        }),
    ensures
        shortcut_position(after.spec_session().spec_settings().macros, crate::text::trim(shortcut)) >= 0,
{
    crate::editing::an_upserted_shortcut_is_found(
        before.spec_session().spec_settings().macros,
        MacroModel {
            shortcut: spec_validate_macro(shortcut, expansion).unwrap().0,
            expansion: spec_validate_macro(shortcut, expansion).unwrap().1,
        },
    );
}

/// Escape always cancels a recording.
pub proof fn escape_cancels_the_recording(key: KeyEvent)
    requires
        key.key == Key::Escape,
    ensures
        spec_capture(key) == Capture::Cancel,
{
}

/// A combination with Option and without Command becomes the hotkey, named
/// by its letter, by a space for the space bar, or by the character the key
/// typed. (Option held is never one of GlowKey's reserved combinations.)
pub proof fn an_option_combination_is_captured(key: KeyEvent, c: char)
    requires
        key.mods.option,
        !key.mods.command,
        key.key != Key::Escape,
        key.key == Key::Letter(c) || (key.key == Key::Space && c == ' ') || (!(key.key is Letter) && key.key != Key::Space
            && key.ch == Some(c)),
    ensures
        spec_capture(key) == Capture::Captured(c),
{
}

/// A combination with Control and without Command becomes the hotkey too,
/// except GlowKey's own Control+Shift+E and Control+Shift+W.
pub proof fn a_control_combination_is_captured(key: KeyEvent, c: char)
    requires
        key.mods.control,
        !key.mods.command,
        key.key != Key::Escape,
        key.key == Key::Letter(c) || (key.key == Key::Space && c == ' ') || (!(key.key is Letter) && key.key != Key::Space
            && key.ch == Some(c)),
        !(key.mods.shift && !key.mods.option && (c == 'e' || c == 'w')),
    ensures
        spec_capture(key) == Capture::Captured(c),
{
}

/// Control+Shift+E and Control+Shift+W are swallowed and not recorded.
pub proof fn the_reserved_combinations_are_not_recorded(key: KeyEvent, c: char)
    requires
        key.mods.control && key.mods.shift && !key.mods.option && !key.mods.command,
        key.key == Key::Letter(c),
        c == 'e' || c == 'w',
    ensures
        spec_capture(key) == Capture::Reserved,
{
}

/// Plain typing and every Command shortcut pass through an armed recorder,
/// so it never blocks the keyboard.
pub proof fn plain_and_command_keys_pass_through(key: KeyEvent)
    requires
        key.key != Key::Escape,
        key.mods.command || (!key.mods.control && !key.mods.option),
    ensures
        spec_capture(key) == Capture::Passthrough,
{
}

} // verus!
