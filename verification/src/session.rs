//! A typing session: the settings in force, the ignore list, the mode, the
//! application in front and the word being composed. The platform shells
//! hold one and change it through the methods here; the persisted part is
//! what [`Session::snapshot`] hands back.
use vstd::prelude::*;

use crate::default_exclusions::{Platform, is_terminal_on, shipped_defaults, spec_shipped_defaults, spec_terminals};
use crate::editing::{find_keys, lemma_keys_position_bounds, find_shortcut, keys_position, shortcut_position, spec_upsert_macro, spec_upsert_word, spec_validate_macro, upsert_macro, upsert_word_override, validate_macro};
use crate::exclusion::{ExclusionList, insert_unique, position, remove_value};
use crate::macro_import::{MacroConflict, spec_conflicts, spec_import};
use crate::settings::{copy_macros, copy_word_overrides, HotkeyPreset, InputMethod, InputMode, Language, Macro, MacroModel, PlacementStyle, Settings, SettingsModel, WordOverride, WordPreference, macros_view, strings_view, words_view};

verus! {

/// What toggling an application's exclusion did.
#[derive(Clone, Copy, Debug, PartialEq, Eq, Structural)]
pub enum ExclusionToggle {
    /// The application is now on the ignore list.
    Excluded,
    /// The application is off the ignore list, persistently.
    Enabled,
    /// A terminal, enabled for this session only: the saved list still
    /// excludes it, because a terminal mangles synthetic edits.
    EnabledSessionOnly,
}

/// What one toggle of `app`'s exclusion does, from `before` to `after` with
/// answer `r`: `app` is excluded afterwards exactly when the answer says so,
/// it was excluded before exactly when the answer says it no longer is, and
/// no other application changes.
pub open spec fn spec_toggled(before: Session, after: Session, app: Seq<char>, r: ExclusionToggle) -> bool {
    &&& after.spec_excluded_now(app) == (r == ExclusionToggle::Excluded)
    &&& before.spec_excluded_now(app) == (r != ExclusionToggle::Excluded)
    &&& forall|x: Seq<char>| x != app ==> (#[trigger] after.spec_excluded_now(x) == before.spec_excluded_now(x))
}

/// Toggling an application twice puts every application back as it was.
pub proof fn toggling_twice_restores(a: Session, b: Session, c: Session, app: Seq<char>, r1: ExclusionToggle, r2: ExclusionToggle)
    requires
        spec_toggled(a, b, app, r1),
        spec_toggled(b, c, app, r2),
    ensures
        forall|x: Seq<char>| #[trigger] c.spec_excluded_now(x) == a.spec_excluded_now(x),
        (r1 == ExclusionToggle::Excluded) != (r2 == ExclusionToggle::Excluded),
{
    assert forall|x: Seq<char>| #[trigger] c.spec_excluded_now(x) == a.spec_excluded_now(x) by {
        if x != app {
            assert(c.spec_excluded_now(x) == b.spec_excluded_now(x));
            assert(b.spec_excluded_now(x) == a.spec_excluded_now(x));
        }
    }
}

/// A typing session.
pub struct Session {
    settings: Settings,
    list: ExclusionList,
    platform: Platform,
    mode: InputMode,
    frontmost: Option<String>,
    suspended: Vec<String>,
    composing: Vec<char>,
}

/// Everything but the settings is the same in both sessions.
pub open spec fn same_runtime(a: Session, b: Session) -> bool {
    &&& a.spec_mode() == b.spec_mode()
    &&& a.spec_frontmost() == b.spec_frontmost()
    &&& a.spec_composing() == b.spec_composing()
    &&& a.spec_platform() == b.spec_platform()
    &&& a.spec_list_ids() == b.spec_list_ids()
    &&& a.spec_list_removed() == b.spec_list_removed()
    &&& a.spec_suspended() == b.spec_suspended()
}

impl Session {
    /// The settings in force (their exclusion fields are the ones loaded; the
    /// live list is [`Session::spec_list_ids`]).
    pub closed spec fn spec_settings(&self) -> SettingsModel {
        self.settings@
    }

    /// The identities on the ignore list.
    pub closed spec fn spec_list_ids(&self) -> Seq<Seq<char>> {
        self.list.spec_ids()
    }

    /// The tombstones of removed shipped defaults.
    pub closed spec fn spec_list_removed(&self) -> Seq<Seq<char>> {
        self.list.spec_removed()
    }

    /// Listed identities enabled for this session only.
    pub closed spec fn spec_suspended(&self) -> Seq<Seq<char>> {
        strings_view(self.suspended@)
    }

    /// Whose tables apply.
    pub closed spec fn spec_platform(&self) -> Platform {
        self.platform
    }

    /// Vietnamese or English.
    pub closed spec fn spec_mode(&self) -> InputMode {
        self.mode
    }

    /// The application in front, once known.
    pub closed spec fn spec_frontmost(&self) -> Option<Seq<char>> {
        match self.frontmost {
            Some(a) => Some(a@),
            None => None,
        }
    }

    /// The word being composed.
    pub closed spec fn spec_composing(&self) -> Seq<char> {
        self.composing@
    }

    /// Whether `id` is excluded right now: listed, and not enabled for this
    /// session.
    pub open spec fn spec_excluded_now(&self, id: Seq<char>) -> bool {
        self.spec_list_ids().contains(id) && !self.spec_suspended().contains(id)
    }

    /// Whether keys are transformed right now: Vietnamese is on and the
    /// application in front is known and not excluded. An unknown application
    /// is not transformed.
    pub open spec fn spec_is_active(&self) -> bool {
        &&& self.spec_mode() == InputMode::Vietnamese
        &&& self.spec_frontmost() is Some
        &&& !self.spec_excluded_now(self.spec_frontmost().unwrap())
    }

    /// The session's internal consistency.
    pub closed spec fn wf(&self) -> bool {
        &&& self.list.wf()
        &&& strings_view(self.suspended@).no_duplicates()
        &&& self.list.spec_defaults() == spec_shipped_defaults(self.platform)
    }

    /// A session over saved settings, on a platform: the ignore list is the
    /// saved one merged with the platform's shipped defaults, Vietnamese is on,
    /// and nothing is known about the application in front yet.
    pub fn from_settings(settings: &Settings, platform: Platform) -> (r: Session)
        ensures
            r.wf(),
            r.spec_settings() == settings@,
            r.spec_platform() == platform,
            r.spec_mode() == InputMode::Vietnamese,
            r.spec_frontmost() is None,
            r.spec_composing() == Seq::<char>::empty(),
            r.spec_suspended() == Seq::<Seq<char>>::empty(),
            forall|id: Seq<char>| #[trigger] r.spec_list_ids().contains(id) <==> crate::exclusion::merged(
                settings@.exclusions,
                settings@.removed_default_exclusions,
                spec_shipped_defaults(platform),
                id,
            ),
    {
        let defaults = shipped_defaults(platform);
        let list = ExclusionList::from_saved(&settings.exclusions, &settings.removed_default_exclusions, &defaults);
        let r = Session {
            settings: settings.clone(),
            list,
            platform,
            mode: InputMode::Vietnamese,
            frontmost: None,
            suspended: Vec::new(),
            composing: Vec::new(),
        };
        assert(strings_view(r.suspended@) =~= Seq::<Seq<char>>::empty());
        assert(r.composing@ =~= Seq::<char>::empty());
        r
    }

    /// What is persisted: the settings, with the ignore list as it stands.
    /// A session-only enabling is not in it.
    pub fn snapshot(&self) -> (r: Settings)
        ensures
            r@ == (SettingsModel {
                exclusions: self.spec_list_ids(),
                removed_default_exclusions: self.spec_list_removed(),
                ..self.spec_settings()
            }),
    {
        let mut r = self.settings.clone();
        r.exclusions = self.list.ids();
        r.removed_default_exclusions = self.list.removed_default_ids();
        r
    }

    /// Vietnamese or English.
    pub fn mode(&self) -> (r: InputMode)
        ensures
            r == self.spec_mode(),
    {
        self.mode
    }

    /// Flips the mode and returns the new one; the word in progress is
    /// committed as typed.
    pub fn toggle_mode(&mut self) -> (r: InputMode)
        requires
            old(self).wf(),
        ensures
            final(self).wf(),
            r == final(self).spec_mode(),
            r != old(self).spec_mode(),
            final(self).spec_settings() == old(self).spec_settings(),
            final(self).spec_frontmost() == old(self).spec_frontmost(),
            final(self).spec_list_ids() == old(self).spec_list_ids(),
            final(self).spec_list_removed() == old(self).spec_list_removed(),
            final(self).spec_suspended() == old(self).spec_suspended(),
            final(self).spec_platform() == old(self).spec_platform(),
            final(self).spec_composing() == Seq::<char>::empty(),
    {
        self.mode = match self.mode {
            InputMode::Vietnamese => InputMode::English,
            InputMode::English => InputMode::Vietnamese,
        };
        self.composing = Vec::new();
        assert(self.composing@ =~= Seq::<char>::empty());
        self.mode
    }

    /// Records the application now in front; the word in progress belonged to
    /// the previous one and is dropped.
    pub fn set_frontmost_app(&mut self, app: &str)
        requires
            old(self).wf(),
        ensures
            final(self).wf(),
            final(self).spec_frontmost() == Some(app@),
            final(self).spec_settings() == old(self).spec_settings(),
            final(self).spec_mode() == old(self).spec_mode(),
            final(self).spec_list_ids() == old(self).spec_list_ids(),
            final(self).spec_list_removed() == old(self).spec_list_removed(),
            final(self).spec_suspended() == old(self).spec_suspended(),
            final(self).spec_platform() == old(self).spec_platform(),
            final(self).spec_composing() == Seq::<char>::empty(),
    {
        self.frontmost = Some(app.to_owned());
        self.composing = Vec::new();
        assert(self.composing@ =~= Seq::<char>::empty());
    }

    /// Whether `id` is excluded right now.
    pub fn is_excluded_now(&self, id: &str) -> (r: bool)
        ensures
            r == self.spec_excluded_now(id@),
    {
        self.list.is_excluded(id) && position(&self.suspended, id).is_none()
    }

    /// Whether keys are transformed right now.
    pub fn is_active(&self) -> (r: bool)
        ensures
            r == self.spec_is_active(),
    {
        if self.mode != InputMode::Vietnamese {
            return false;
        }
        match &self.frontmost {
            Some(a) => !self.is_excluded_now(a.as_str()),
            None => false,
        }
    }

    /// Toggles an application's exclusion. An excluded terminal is enabled for
    /// this session only (the saved list keeps it); any other excluded
    /// application leaves the list; an application that is not excluded right
    /// now becomes excluded. Afterwards it is excluded exactly when the answer
    /// is [`ExclusionToggle::Excluded`], and no other application changes.
    pub fn toggle_app_exclusion(&mut self, app: &str) -> (r: ExclusionToggle)
        requires
            old(self).wf(),
        ensures
            final(self).wf(),
            spec_toggled(*old(self), *final(self), app@, r),
            final(self).spec_excluded_now(app@) == (r == ExclusionToggle::Excluded),
            old(self).spec_excluded_now(app@) == (r != ExclusionToggle::Excluded),
            r == ExclusionToggle::EnabledSessionOnly <==> (old(self).spec_excluded_now(app@)
                && spec_terminals(old(self).spec_platform()).contains(app@)),
            r == ExclusionToggle::EnabledSessionOnly ==> final(self).spec_list_ids() == old(self).spec_list_ids()
                && final(self).spec_list_removed() == old(self).spec_list_removed()
                && final(self).spec_suspended().contains(app@),
            r == ExclusionToggle::Enabled ==> !final(self).spec_list_ids().contains(app@)
                && final(self).spec_suspended() == old(self).spec_suspended()
                && (forall|x: Seq<char>| x != app@ ==> (#[trigger] final(self).spec_list_ids().contains(x)
                == old(self).spec_list_ids().contains(x))),
            r == ExclusionToggle::Excluded ==> final(self).spec_list_ids().contains(app@)
                && !final(self).spec_suspended().contains(app@)
                && final(self).spec_list_removed() == old(self).spec_list_removed()
                && (forall|x: Seq<char>| x != app@ ==> (#[trigger] final(self).spec_list_ids().contains(x)
                == old(self).spec_list_ids().contains(x))),
            forall|x: Seq<char>| x != app@ ==> (#[trigger] final(self).spec_excluded_now(x) == old(self).spec_excluded_now(x)),
            final(self).spec_settings() == old(self).spec_settings(),
            final(self).spec_mode() == old(self).spec_mode(),
            final(self).spec_frontmost() == old(self).spec_frontmost(),
            final(self).spec_composing() == old(self).spec_composing(),
            final(self).spec_platform() == old(self).spec_platform(),
    {
        let listed = self.list.is_excluded(app);
        let suspended = position(&self.suspended, app).is_some();
        if listed && !suspended {
            if is_terminal_on(self.platform, app) {
                insert_unique(&mut self.suspended, app);
                ExclusionToggle::EnabledSessionOnly
            } else {
                self.list.remove(app);
                ExclusionToggle::Enabled
            }
        } else {
            if !listed {
                self.list.add(app);
            }
            if suspended {
                remove_value(&mut self.suspended, app);
            }
            ExclusionToggle::Excluded
        }
    }

    /// Puts an application on the ignore list (idempotent), and ends any
    /// session-only enabling of it.
    pub fn add_exclusion(&mut self, id: &str)
        requires
            old(self).wf(),
        ensures
            final(self).wf(),
            forall|x: Seq<char>| #[trigger] final(self).spec_list_ids().contains(x) <==> (old(self).spec_list_ids().contains(x) || x == id@),
            final(self).spec_excluded_now(id@),
            forall|x: Seq<char>| x != id@ ==> (#[trigger] final(self).spec_excluded_now(x) == old(self).spec_excluded_now(x)),
            final(self).spec_settings() == old(self).spec_settings(),
            final(self).spec_mode() == old(self).spec_mode(),
            final(self).spec_frontmost() == old(self).spec_frontmost(),
            final(self).spec_composing() == old(self).spec_composing(),
            final(self).spec_platform() == old(self).spec_platform(),
    {
        self.list.add(id);
        remove_value(&mut self.suspended, id);
    }

    /// Takes an application off the ignore list (a removed shipped default
    /// keeps a tombstone).
    pub fn remove_exclusion(&mut self, id: &str)
        requires
            old(self).wf(),
        ensures
            final(self).wf(),
            forall|x: Seq<char>| #[trigger] final(self).spec_list_ids().contains(x) <==> (old(self).spec_list_ids().contains(x) && x != id@),
            !final(self).spec_excluded_now(id@),
            forall|x: Seq<char>| x != id@ ==> (#[trigger] final(self).spec_excluded_now(x) == old(self).spec_excluded_now(x)),
            final(self).spec_settings() == old(self).spec_settings(),
            final(self).spec_mode() == old(self).spec_mode(),
            final(self).spec_frontmost() == old(self).spec_frontmost(),
            final(self).spec_composing() == old(self).spec_composing(),
            final(self).spec_platform() == old(self).spec_platform(),
    {
        self.list.remove(id);
        remove_value(&mut self.suspended, id);
    }

    /// The identities on the ignore list, each once.
    pub fn exclusion_ids(&self) -> (r: Vec<String>)
        ensures
            strings_view(r@) == self.spec_list_ids(),
            self.wf() ==> crate::order::strictly_sorted(strings_view(r@)),
    {
        self.list.ids()
    }

    /// Commits the word in progress as typed.
    pub fn flush(&mut self)
        requires
            old(self).wf(),
        ensures
            final(self).wf(),
            final(self).spec_composing() == Seq::<char>::empty(),
            final(self).spec_settings() == old(self).spec_settings(),
            final(self).spec_mode() == old(self).spec_mode(),
            final(self).spec_frontmost() == old(self).spec_frontmost(),
            final(self).spec_list_ids() == old(self).spec_list_ids(),
            final(self).spec_list_removed() == old(self).spec_list_removed(),
            final(self).spec_suspended() == old(self).spec_suspended(),
            final(self).spec_platform() == old(self).spec_platform(),
    {
        self.composing = Vec::new();
        assert(self.composing@ =~= Seq::<char>::empty());
    }

    /// Whether a macro with this shortcut exists, ignoring ASCII case. The
    /// shortcut is trimmed first, as it is when a macro is added.
    pub fn has_macro(&self, shortcut: &str) -> (r: bool)
        ensures
            r == (shortcut_position(self.spec_settings().macros, crate::text::trim(shortcut@)) >= 0),
    {
        let t = crate::editing::trimmed(shortcut);
        find_shortcut(&self.settings.macros, t.as_str()).is_some()
    }

    /// Adds or replaces a macro. Refused (and nothing changes) when the
    /// shortcut or the expansion is blank; otherwise the trimmed pair lands in
    /// the table as [`crate::editing::upsert_macro`] places it.
    pub fn add_macro(&mut self, shortcut: &str, expansion: &str) -> (accepted: bool)
        requires
            old(self).wf(),
        ensures
            final(self).wf(),
            accepted == (spec_validate_macro(shortcut@, expansion@) is Some),
            !accepted ==> final(self).spec_settings() == old(self).spec_settings(),
            accepted ==> final(self).spec_settings() == (SettingsModel {
                macros: spec_upsert_macro(
                    old(self).spec_settings().macros,
                    MacroModel {
                        shortcut: spec_validate_macro(shortcut@, expansion@).unwrap().0,
                        expansion: spec_validate_macro(shortcut@, expansion@).unwrap().1,
                    },
                    None,
                ),
                ..old(self).spec_settings()
            }),
            same_runtime(*old(self), *final(self)),
    {
        match validate_macro(shortcut, expansion) {
            Some((s, e)) => {
                upsert_macro(&mut self.settings.macros, s, e, None);
                true
            },
            None => false,
        }
    }

    /// Removes the macro at `index`; an index past the end changes nothing.
    pub fn remove_macro(&mut self, index: usize)
        requires
            old(self).wf(),
        ensures
            final(self).wf(),
            final(self).spec_settings() == (SettingsModel {
                macros: if index < old(self).spec_settings().macros.len() {
                    old(self).spec_settings().macros.remove(index as int)
                } else {
                    old(self).spec_settings().macros
                },
                ..old(self).spec_settings()
            }),
            same_runtime(*old(self), *final(self)),
    {
        if index < self.settings.macros.len() {
            let ghost before = macros_view(self.settings.macros@);
            self.settings.macros.remove(index);
            assert(macros_view(self.settings.macros@) =~= before.remove(index as int));
        }
    }

    /// The macro table.
    pub fn macros(&self) -> (r: Vec<Macro>)
        ensures
            macros_view(r@) == self.spec_settings().macros,
    {
        copy_macros(&self.settings.macros)
    }

    /// How many rows of an import would collide with an existing shortcut.
    pub fn macro_conflicts(&self, rows: &Vec<Macro>) -> (r: usize)
        ensures
            r == spec_conflicts(self.spec_settings().macros, macros_view(rows@)),
    {
        crate::macro_import::macro_conflicts(&self.settings.macros, rows)
    }

    /// Merges an imported macro table and returns `(added, skipped)`.
    pub fn import_macros(&mut self, rows: &Vec<Macro>, conflict: MacroConflict) -> (r: (usize, usize))
        requires
            old(self).wf(),
        ensures
            final(self).wf(),
            final(self).spec_settings() == (SettingsModel {
                macros: spec_import(old(self).spec_settings().macros, macros_view(rows@), conflict).0,
                ..old(self).spec_settings()
            }),
            r.0 == spec_import(old(self).spec_settings().macros, macros_view(rows@), conflict).1,
            r.1 == spec_import(old(self).spec_settings().macros, macros_view(rows@), conflict).2,
            same_runtime(*old(self), *final(self)),
    {
        crate::macro_import::import_macros(&mut self.settings.macros, rows, conflict)
    }

    /// The decision recorded for `keys`, if any.
    pub fn word_override(&self, keys: &str) -> (r: Option<WordPreference>)
        ensures
            keys_position(self.spec_settings().word_overrides, keys@) >= 0 ==> r == Some(
                self.spec_settings().word_overrides[keys_position(self.spec_settings().word_overrides, keys@)].prefer,
            ),
            keys_position(self.spec_settings().word_overrides, keys@) < 0 ==> r is None,
    {
        proof {
            lemma_keys_position_bounds(self.spec_settings().word_overrides, keys@);
        }
        match find_keys(&self.settings.word_overrides, keys) {
            Some(i) => Some(self.settings.word_overrides[i].prefer),
            None => None,
        }
    }

    /// Records a decision for `keys`: the entry for the same keys takes the new
    /// preference, or a new entry is appended.
    pub fn set_word_override(&mut self, keys: &str, prefer: WordPreference)
        requires
            old(self).wf(),
        ensures
            final(self).wf(),
            final(self).spec_settings() == (SettingsModel {
                word_overrides: spec_upsert_word(old(self).spec_settings().word_overrides, keys@, prefer, None),
                ..old(self).spec_settings()
            }),
            same_runtime(*old(self), *final(self)),
    {
        upsert_word_override(&mut self.settings.word_overrides, keys.to_owned(), prefer, None);
    }

    /// Forgets the decision recorded for `keys`, if any.
    pub fn remove_word_override(&mut self, keys: &str)
        requires
            old(self).wf(),
        ensures
            final(self).wf(),
            final(self).spec_settings() == (SettingsModel {
                word_overrides: if keys_position(old(self).spec_settings().word_overrides, keys@) >= 0 {
                    old(self).spec_settings().word_overrides.remove(
                        keys_position(old(self).spec_settings().word_overrides, keys@),
                    )
                } else {
                    old(self).spec_settings().word_overrides
                },
                ..old(self).spec_settings()
            }),
            same_runtime(*old(self), *final(self)),
    {
        proof {
            lemma_keys_position_bounds(self.spec_settings().word_overrides, keys@);
        }
        match find_keys(&self.settings.word_overrides, keys) {
            Some(i) => {
                let ghost before = words_view(self.settings.word_overrides@);
                self.settings.word_overrides.remove(i);
                assert(words_view(self.settings.word_overrides@) =~= before.remove(i as int));
            },
            None => {},
        }
    }

    /// Every recorded word decision.
    pub fn word_override_list(&self) -> (r: Vec<WordOverride>)
        ensures
            words_view(r@) == self.spec_settings().word_overrides,
    {
        copy_word_overrides(&self.settings.word_overrides)
    }

    /// Whether auto-fix (restore a word that is not valid Vietnamese to its keys) is on.
    pub fn auto_fix(&self) -> (r: bool)
        ensures
            r == self.spec_settings().auto_fix,
    {
        self.settings.auto_fix
    }

    /// Sets `auto_fix`; nothing else changes.
    pub fn set_auto_fix(&mut self, on: bool)
        requires
            old(self).wf(),
        ensures
            final(self).wf(),
            final(self).spec_settings() == (SettingsModel { auto_fix: on, ..old(self).spec_settings() }),
            same_runtime(*old(self), *final(self)),
    {
        self.settings.auto_fix = on;
    }

    /// Whether the first letter of each sentence is capitalized.
    pub fn auto_capitalize(&self) -> (r: bool)
        ensures
            r == self.spec_settings().auto_capitalize,
    {
        self.settings.auto_capitalize
    }

    /// Sets `auto_capitalize`; nothing else changes.
    pub fn set_auto_capitalize(&mut self, on: bool)
        requires
            old(self).wf(),
        ensures
            final(self).wf(),
            final(self).spec_settings() == (SettingsModel { auto_capitalize: on, ..old(self).spec_settings() }),
            same_runtime(*old(self), *final(self)),
    {
        self.settings.auto_capitalize = on;
    }

    /// Whether a committed common English word is restored to its keys.
    pub fn restore_english_words(&self) -> (r: bool)
        ensures
            r == self.spec_settings().restore_english_words,
    {
        self.settings.restore_english_words
    }

    /// Sets `restore_english_words`; nothing else changes.
    pub fn set_restore_english_words(&mut self, on: bool)
        requires
            old(self).wf(),
        ensures
            final(self).wf(),
            final(self).spec_settings() == (SettingsModel { restore_english_words: on, ..old(self).spec_settings() }),
            same_runtime(*old(self), *final(self)),
    {
        self.settings.restore_english_words = on;
    }

    /// Whether the Settings window opens at launch.
    pub fn open_settings_at_launch(&self) -> (r: bool)
        ensures
            r == self.spec_settings().open_settings_at_launch,
    {
        self.settings.open_settings_at_launch
    }

    /// Sets `open_settings_at_launch`; nothing else changes.
    pub fn set_open_settings_at_launch(&mut self, on: bool)
        requires
            old(self).wf(),
        ensures
            final(self).wf(),
            final(self).spec_settings() == (SettingsModel { open_settings_at_launch: on, ..old(self).spec_settings() }),
            same_runtime(*old(self), *final(self)),
    {
        self.settings.open_settings_at_launch = on;
    }

    /// Whether Quick Telex (a doubled initial consonant expands) is on.
    pub fn quick_telex(&self) -> (r: bool)
        ensures
            r == self.spec_settings().quick_telex,
    {
        self.settings.quick_telex
    }

    /// Sets `quick_telex`; nothing else changes.
    pub fn set_quick_telex(&mut self, on: bool)
        requires
            old(self).wf(),
        ensures
            final(self).wf(),
            final(self).spec_settings() == (SettingsModel { quick_telex: on, ..old(self).spec_settings() }),
            same_runtime(*old(self), *final(self)),
    {
        self.settings.quick_telex = on;
    }

    /// Whether the Telex bracket shortcuts are on.
    pub fn telex_brackets(&self) -> (r: bool)
        ensures
            r == self.spec_settings().telex_brackets,
    {
        self.settings.telex_brackets
    }

    /// Sets `telex_brackets`; nothing else changes.
    pub fn set_telex_brackets(&mut self, on: bool)
        requires
            old(self).wf(),
        ensures
            final(self).wf(),
            final(self).spec_settings() == (SettingsModel { telex_brackets: on, ..old(self).spec_settings() }),
            same_runtime(*old(self), *final(self)),
    {
        self.settings.telex_brackets = on;
    }

    /// Whether the mid-word spell check is on.
    pub fn strict_spell_check(&self) -> (r: bool)
        ensures
            r == self.spec_settings().strict_spell_check,
    {
        self.settings.strict_spell_check
    }

    /// Sets `strict_spell_check`; nothing else changes.
    pub fn set_strict_spell_check(&mut self, on: bool)
        requires
            old(self).wf(),
        ensures
            final(self).wf(),
            final(self).spec_settings() == (SettingsModel { strict_spell_check: on, ..old(self).spec_settings() }),
            same_runtime(*old(self), *final(self)),
    {
        self.settings.strict_spell_check = on;
    }

    /// Whether macros expand while Vietnamese is off.
    pub fn always_macro(&self) -> (r: bool)
        ensures
            r == self.spec_settings().always_macro,
    {
        self.settings.always_macro
    }

    /// Sets `always_macro`; nothing else changes.
    pub fn set_always_macro(&mut self, on: bool)
        requires
            old(self).wf(),
        ensures
            final(self).wf(),
            final(self).spec_settings() == (SettingsModel { always_macro: on, ..old(self).spec_settings() }),
            same_runtime(*old(self), *final(self)),
    {
        self.settings.always_macro = on;
    }

    /// Whether the one-time welcome has been shown.
    pub fn welcome_shown(&self) -> (r: bool)
        ensures
            r == self.spec_settings().welcome_shown,
    {
        self.settings.welcome_shown
    }

    /// Sets `welcome_shown`; nothing else changes.
    pub fn set_welcome_shown(&mut self, on: bool)
        requires
            old(self).wf(),
        ensures
            final(self).wf(),
            final(self).spec_settings() == (SettingsModel { welcome_shown: on, ..old(self).spec_settings() }),
            same_runtime(*old(self), *final(self)),
    {
        self.settings.welcome_shown = on;
    }

    /// The tone-placement style.
    pub fn style(&self) -> (r: PlacementStyle)
        ensures
            r == self.spec_settings().style,
    {
        self.settings.style
    }

    /// Sets `style`; nothing else changes.
    pub fn set_style(&mut self, value: PlacementStyle)
        requires
            old(self).wf(),
        ensures
            final(self).wf(),
            final(self).spec_settings() == (SettingsModel { style: value, ..old(self).spec_settings() }),
            same_runtime(*old(self), *final(self)),
    {
        self.settings.style = value;
    }

    /// The input method (Telex or VNI).
    pub fn input_method(&self) -> (r: InputMethod)
        ensures
            r == self.spec_settings().input_method,
    {
        self.settings.input_method
    }

    /// Sets `input_method`; nothing else changes.
    pub fn set_input_method(&mut self, value: InputMethod)
        requires
            old(self).wf(),
        ensures
            final(self).wf(),
            final(self).spec_settings() == (SettingsModel { input_method: value, ..old(self).spec_settings() }),
            same_runtime(*old(self), *final(self)),
    {
        self.settings.input_method = value;
    }

    /// The hotkey that toggles Vietnamese.
    pub fn toggle_hotkey(&self) -> (r: HotkeyPreset)
        ensures
            r == self.spec_settings().toggle_hotkey,
    {
        self.settings.toggle_hotkey
    }

    /// Sets `toggle_hotkey`; nothing else changes.
    pub fn set_toggle_hotkey(&mut self, value: HotkeyPreset)
        requires
            old(self).wf(),
        ensures
            final(self).wf(),
            final(self).spec_settings() == (SettingsModel { toggle_hotkey: value, ..old(self).spec_settings() }),
            same_runtime(*old(self), *final(self)),
    {
        self.settings.toggle_hotkey = value;
    }

    /// The interface language.
    pub fn language(&self) -> (r: Language)
        ensures
            r == self.spec_settings().language,
    {
        self.settings.language
    }

    /// Sets `language`; nothing else changes.
    pub fn set_language(&mut self, value: Language)
        requires
            old(self).wf(),
        ensures
            final(self).wf(),
            final(self).spec_settings() == (SettingsModel { language: value, ..old(self).spec_settings() }),
            same_runtime(*old(self), *final(self)),
    {
        self.settings.language = value;
    }
}

} // verus!
