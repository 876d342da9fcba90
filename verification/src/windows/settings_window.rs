//! The settings window's state, apart from its drawing: the value it opened
//! on, the draft the controls edit, the ignore list edited in place, and the
//! result it hands back when it closes (`None` inside for "nothing changed").
use vstd::prelude::*;

use crate::default_exclusions::{Platform, shipped_defaults, spec_shipped_defaults};
use crate::exclusion::ExclusionList;
use crate::editing::{normalize_exe_name, normalize_word_keys, spec_normalized, spec_upsert_macro, spec_upsert_word, spec_validate_macro, upsert_macro, upsert_word_override, validate_macro};
use crate::settings::{Macro, MacroModel, Settings, SettingsModel, WordPreference, macros_view, settings_eq, strings_view, words_view};

verus! {

/// `settings` with its two exclusion fields replaced by the effective list
/// and its tombstones, as computed from them: two values that mean the same
/// list compare equal after this, whatever order their raw fields had.
pub fn normalize_exclusions(settings: &Settings, platform: Platform) -> (r: Settings)
    ensures
        forall|id: Seq<char>| #[trigger] r@.exclusions.contains(id) <==> crate::exclusion::merged(
            settings@.exclusions,
            settings@.removed_default_exclusions,
            spec_shipped_defaults(platform),
            id,
        ),
        forall|id: Seq<char>| #[trigger] r@.removed_default_exclusions.contains(id) <==> settings@.removed_default_exclusions.contains(id),
        crate::order::strictly_sorted(r@.exclusions),
        crate::order::strictly_sorted(r@.removed_default_exclusions),
        r@ == (SettingsModel {
            exclusions: r@.exclusions,
            removed_default_exclusions: r@.removed_default_exclusions,
            ..settings@
        }),
{
    let defaults = shipped_defaults(platform);
    let list = ExclusionList::from_saved(&settings.exclusions, &settings.removed_default_exclusions, &defaults);
    let mut r = settings.clone();
    r.exclusions = list.ids();
    r.removed_default_exclusions = list.removed_default_ids();
    r
}

/// The settings window's state.
pub struct SettingsApp {
    baseline: Settings,
    draft: Settings,
    list: ExclusionList,
    result: Option<Option<Settings>>,
    macro_edit_index: Option<usize>,
    word_edit_index: Option<usize>,
}

impl SettingsApp {
    /// The value the window opened on, with its exclusion fields normalized.
    pub closed spec fn spec_baseline(&self) -> SettingsModel {
        self.baseline@
    }

    /// The edited ignore list.
    pub closed spec fn spec_list_ids(&self) -> Seq<Seq<char>> {
        self.list.spec_ids()
    }

    /// Its tombstones.
    pub closed spec fn spec_list_removed(&self) -> Seq<Seq<char>> {
        self.list.spec_removed()
    }

    /// The decided result, once decided.
    pub closed spec fn spec_result(&self) -> Option<Option<SettingsModel>> {
        match self.result {
            Some(Some(s)) => Some(Some(s@)),
            Some(None) => Some(None),
            None => None,
        }
    }

    /// The list is consistent.
    pub closed spec fn wf(&self) -> bool {
        self.list.wf()
    }

    /// The draft as it would be handed back: the edited list written into it.
    pub open spec fn spec_outcome_draft(&self) -> SettingsModel {
        SettingsModel {
            exclusions: self.spec_list_ids(),
            removed_default_exclusions: self.spec_list_removed(),
            ..self.spec_draft()
        }
    }

    /// The draft's value.
    pub closed spec fn spec_draft(&self) -> SettingsModel {
        self.draft@
    }

    /// A window opened on `initial`: the draft is a copy of it, the list is
    /// its effective ignore list, and nothing is decided.
    pub fn new(initial: Settings, platform: Platform) -> (r: Self)
        ensures
            r.wf(),
            r.spec_draft() == initial@,
            r.spec_result() is None,
            r.spec_baseline() == (SettingsModel {
                exclusions: r.spec_list_ids(),
                removed_default_exclusions: r.spec_list_removed(),
                ..initial@
            }),
            forall|id: Seq<char>| #[trigger] r.spec_list_ids().contains(id) <==> crate::exclusion::merged(
                initial@.exclusions,
                initial@.removed_default_exclusions,
                spec_shipped_defaults(platform),
                id,
            ),
    {
        let defaults = shipped_defaults(platform);
        let list = ExclusionList::from_saved(&initial.exclusions, &initial.removed_default_exclusions, &defaults);
        let mut baseline = initial.clone();
        baseline.exclusions = list.ids();
        baseline.removed_default_exclusions = list.removed_default_ids();
        SettingsApp { baseline, draft: initial, list, result: None, macro_edit_index: None, word_edit_index: None }
    }

    /// The value being edited; every control writes here directly.
    pub fn draft_mut(&mut self) -> (r: &mut Settings)
        ensures
            (*r)@ == old(self).spec_draft(),
            final(self).spec_draft() == (*final(r))@,
            final(self).spec_baseline() == old(self).spec_baseline(),
            final(self).spec_list_ids() == old(self).spec_list_ids(),
            final(self).spec_list_removed() == old(self).spec_list_removed(),
            final(self).spec_result() == old(self).spec_result(),
            final(self).wf() == old(self).wf(),
    {
        &mut self.draft
    }

    /// The macro row being edited, if any.
    pub closed spec fn spec_macro_edit(&self) -> Option<usize> {
        self.macro_edit_index
    }

    /// The personal-word row being edited, if any.
    pub closed spec fn spec_word_edit(&self) -> Option<usize> {
        self.word_edit_index
    }

    /// "Add App": a typed program name, normalized, joins the edited list;
    /// `false` (nothing changes) when nothing is left of it.
    pub fn add_typed_exclusion(&mut self, input: &str) -> (added: bool)
        requires
            old(self).wf(),
        ensures
            final(self).wf(),
            added == (spec_normalized(input@) is Some),
            added ==> forall|x: Seq<char>| #[trigger] final(self).spec_list_ids().contains(x) <==> (old(
                self,
            ).spec_list_ids().contains(x) || x == spec_normalized(input@).unwrap()),
            !added ==> final(self).spec_list_ids() == old(self).spec_list_ids(),
            final(self).spec_draft() == old(self).spec_draft(),
            final(self).spec_result() == old(self).spec_result(),
    {
        match normalize_exe_name(input) {
            Some(name) => {
                self.list.add(name.as_str());
                true
            },
            None => false,
        }
    }

    /// Add/Save in the macro window: a valid pair lands in the draft's table,
    /// replacing the row being edited if one is; an invalid pair changes
    /// nothing and keeps the edit open.
    pub fn save_macro(&mut self, shortcut: &str, expansion: &str) -> (saved: bool)
        ensures
            saved == (spec_validate_macro(shortcut@, expansion@) is Some),
            saved ==> final(self).spec_draft() == (SettingsModel {
                macros: spec_upsert_macro(
                    old(self).spec_draft().macros,
                    MacroModel {
                        shortcut: spec_validate_macro(shortcut@, expansion@).unwrap().0,
                        expansion: spec_validate_macro(shortcut@, expansion@).unwrap().1,
                    },
                    old(self).spec_macro_edit(),
                ),
                ..old(self).spec_draft()
            }) && final(self).spec_macro_edit() is None,
            !saved ==> final(self).spec_draft() == old(self).spec_draft()
                && final(self).spec_macro_edit() == old(self).spec_macro_edit(),
            final(self).spec_list_ids() == old(self).spec_list_ids(),
            final(self).wf() == old(self).wf(),
    {
        match validate_macro(shortcut, expansion) {
            Some((s, e)) => {
                let index = self.macro_edit_index;
                self.macro_edit_index = None;
                upsert_macro(&mut self.draft.macros, s, e, index);
                true
            },
            None => false,
        }
    }

    /// "Edit" on a macro row: its shortcut and expansion, to fill the fields
    /// with; the row is then the one Add/Save replaces.
    pub fn edit_macro(&mut self, index: usize) -> (r: Option<(String, String)>)
        ensures
            index < old(self).spec_draft().macros.len() ==> r is Some && final(self).spec_macro_edit() == Some(index)
                && r.unwrap().0@ == old(self).spec_draft().macros[index as int].shortcut
                && r.unwrap().1@ == old(self).spec_draft().macros[index as int].expansion,
            index >= old(self).spec_draft().macros.len() ==> r is None && final(self).spec_macro_edit() == old(self).spec_macro_edit(),
            final(self).spec_draft() == old(self).spec_draft(),
            final(self).spec_list_ids() == old(self).spec_list_ids(),
            final(self).wf() == old(self).wf(),
    {
        if index < self.draft.macros.len() {
            self.macro_edit_index = Some(index);
            assert(self.draft.macros@[index as int]@ == macros_view(self.draft.macros@)[index as int]);
            Some((self.draft.macros[index].shortcut.clone(), self.draft.macros[index].expansion.clone()))
        } else {
            None
        }
    }

    /// Cancels a macro edit.
    pub fn cancel_macro_edit(&mut self)
        ensures
            final(self).spec_macro_edit() is None,
            final(self).spec_draft() == old(self).spec_draft(),
            final(self).spec_list_ids() == old(self).spec_list_ids(),
            final(self).wf() == old(self).wf(),
    {
        self.macro_edit_index = None;
    }

    /// "Remove" on a macro row; an edit of that row is abandoned with it.
    pub fn remove_macro(&mut self, index: usize)
        ensures
            final(self).spec_draft() == (SettingsModel {
                macros: if index < old(self).spec_draft().macros.len() {
                    old(self).spec_draft().macros.remove(index as int)
                } else {
                    old(self).spec_draft().macros
                },
                ..old(self).spec_draft()
            }),
            final(self).spec_macro_edit() == (if index < old(self).spec_draft().macros.len() && old(self).spec_macro_edit() == Some(index) {
                None
            } else {
                old(self).spec_macro_edit()
            }),
            final(self).spec_list_ids() == old(self).spec_list_ids(),
            final(self).wf() == old(self).wf(),
    {
        if index < self.draft.macros.len() {
            let ghost before = macros_view(self.draft.macros@);
            self.draft.macros.remove(index);
            assert(macros_view(self.draft.macros@) =~= before.remove(index as int));
            if self.macro_edit_index == Some(index) {
                self.macro_edit_index = None;
            }
        }
    }

    /// Save in the personal-words window: normalized keys land in the draft's
    /// list with the chosen preference, replacing the row being edited if one
    /// is; blank keys change nothing.
    pub fn save_word(&mut self, keys: &str, prefer: WordPreference) -> (saved: bool)
        ensures
            saved == (spec_normalized(keys@) is Some),
            saved ==> final(self).spec_draft() == (SettingsModel {
                word_overrides: spec_upsert_word(
                    old(self).spec_draft().word_overrides,
                    spec_normalized(keys@).unwrap(),
                    prefer,
                    old(self).spec_word_edit(),
                ),
                ..old(self).spec_draft()
            }) && final(self).spec_word_edit() is None,
            !saved ==> final(self).spec_draft() == old(self).spec_draft()
                && final(self).spec_word_edit() == old(self).spec_word_edit(),
            final(self).spec_list_ids() == old(self).spec_list_ids(),
            final(self).wf() == old(self).wf(),
    {
        match normalize_word_keys(keys) {
            Some(k) => {
                let index = self.word_edit_index;
                self.word_edit_index = None;
                upsert_word_override(&mut self.draft.word_overrides, k, prefer, index);
                true
            },
            None => false,
        }
    }

    /// "Edit" on a word row: its keys and preference; the row is then the one
    /// Save replaces.
    pub fn edit_word(&mut self, index: usize) -> (r: Option<(String, WordPreference)>)
        ensures
            index < old(self).spec_draft().word_overrides.len() ==> r is Some && final(self).spec_word_edit() == Some(index)
                && r.unwrap().0@ == old(self).spec_draft().word_overrides[index as int].keys
                && r.unwrap().1 == old(self).spec_draft().word_overrides[index as int].prefer,
            index >= old(self).spec_draft().word_overrides.len() ==> r is None && final(self).spec_word_edit() == old(self).spec_word_edit(),
            final(self).spec_draft() == old(self).spec_draft(),
            final(self).spec_list_ids() == old(self).spec_list_ids(),
            final(self).wf() == old(self).wf(),
    {
        if index < self.draft.word_overrides.len() {
            self.word_edit_index = Some(index);
            assert(self.draft.word_overrides@[index as int]@ == words_view(self.draft.word_overrides@)[index as int]);
            Some((self.draft.word_overrides[index].keys.clone(), self.draft.word_overrides[index].prefer))
        } else {
            None
        }
    }

    /// "Remove" on a word row; an edit of that row is abandoned with it.
    pub fn remove_word(&mut self, index: usize)
        ensures
            final(self).spec_draft() == (SettingsModel {
                word_overrides: if index < old(self).spec_draft().word_overrides.len() {
                    old(self).spec_draft().word_overrides.remove(index as int)
                } else {
                    old(self).spec_draft().word_overrides
                },
                ..old(self).spec_draft()
            }),
            final(self).spec_word_edit() == (if index < old(self).spec_draft().word_overrides.len() && old(self).spec_word_edit() == Some(index) {
                None
            } else {
                old(self).spec_word_edit()
            }),
            final(self).spec_list_ids() == old(self).spec_list_ids(),
            final(self).wf() == old(self).wf(),
    {
        if index < self.draft.word_overrides.len() {
            let ghost before = words_view(self.draft.word_overrides@);
            self.draft.word_overrides.remove(index);
            assert(words_view(self.draft.word_overrides@) =~= before.remove(index as int));
            if self.word_edit_index == Some(index) {
                self.word_edit_index = None;
            }
        }
    }

    /// Import in the macro window: each parsed row lands in the draft's table
    /// in order, replacing a row with the same shortcut or appended.
    pub fn import_table(&mut self, rows: &Vec<Macro>)
        ensures
            final(self).spec_draft() == (SettingsModel {
                macros: crate::macro_import::spec_import(old(self).spec_draft().macros, macros_view(rows@), crate::macro_import::MacroConflict::Replace).0,
                ..old(self).spec_draft()
            }),
            final(self).spec_list_ids() == old(self).spec_list_ids(),
            final(self).wf() == old(self).wf(),
    {
        crate::macro_import::import_macros(&mut self.draft.macros, rows, crate::macro_import::MacroConflict::Replace);
    }

    /// Adds an application to the edited ignore list.
    pub fn add_exclusion(&mut self, id: &str)
        requires
            old(self).wf(),
        ensures
            final(self).wf(),
            forall|x: Seq<char>| #[trigger] final(self).spec_list_ids().contains(x) <==> (old(self).spec_list_ids().contains(x) || x == id@),
            final(self).spec_draft() == old(self).spec_draft(),
            final(self).spec_baseline() == old(self).spec_baseline(),
            final(self).spec_result() == old(self).spec_result(),
    {
        self.list.add(id);
    }

    /// Removes an application from the edited ignore list.
    pub fn remove_exclusion(&mut self, id: &str)
        requires
            old(self).wf(),
        ensures
            final(self).wf(),
            forall|x: Seq<char>| #[trigger] final(self).spec_list_ids().contains(x) <==> (old(self).spec_list_ids().contains(x) && x != id@),
            final(self).spec_draft() == old(self).spec_draft(),
            final(self).spec_baseline() == old(self).spec_baseline(),
            final(self).spec_result() == old(self).spec_result(),
    {
        self.list.remove(id);
    }

    /// The edited ignore list.
    pub fn exclusion_ids(&self) -> (r: Vec<String>)
        ensures
            strings_view(r@) == self.spec_list_ids(),
            self.wf() ==> crate::order::strictly_sorted(strings_view(r@)),
    {
        self.list.ids()
    }

    /// Decides what to hand back: `None` inside when the draft, with the
    /// edited list written into it, is the value the window opened on.
    /// Idempotent: a decided window stays decided as it was.
    pub fn finalize(&mut self)
        ensures
            old(self).spec_result() is Some ==> final(self).spec_result() == old(self).spec_result(),
            old(self).spec_result() is None ==> final(self).spec_result() == Some(
                if old(self).spec_outcome_draft() == old(self).spec_baseline() {
                    None::<SettingsModel>
                } else {
                    Some(old(self).spec_outcome_draft())
                },
            ),
            final(self).spec_draft() == old(self).spec_draft(),
            final(self).spec_baseline() == old(self).spec_baseline(),
            final(self).spec_list_ids() == old(self).spec_list_ids(),
            final(self).spec_list_removed() == old(self).spec_list_removed(),
            final(self).wf() == old(self).wf(),
    {
        if self.result.is_some() {
            return;
        }
        let mut draft = self.draft.clone();
        draft.exclusions = self.list.ids();
        draft.removed_default_exclusions = self.list.removed_default_ids();
        assert(draft@ == self.spec_outcome_draft());
        let outcome = if settings_eq(&draft, &self.baseline) {
            None
        } else {
            Some(draft)
        };
        self.result = Some(outcome);
    }

    /// Takes the decided result (once); `None` while undecided.
    pub fn take_result(&mut self) -> (r: Option<Option<Settings>>)
        ensures
            match (r, old(self).spec_result()) {
                (Some(Some(s)), Some(Some(m))) => s@ == m,
                (Some(None), Some(None)) => true,
                (None, None) => true,
                _ => false,
            },
            final(self).spec_result() is None,
            final(self).spec_draft() == old(self).spec_draft(),
            final(self).spec_baseline() == old(self).spec_baseline(),
            final(self).wf() == old(self).wf(),
    {
        let mut r: Option<Option<Settings>> = None;
        std::mem::swap(&mut r, &mut self.result);
        r
    }

    /// The value the window opened on, normalized: the baseline a three-way
    /// merge of the result must be taken against.
    pub fn baseline(&self) -> (r: Settings)
        ensures
            r@ == self.spec_baseline(),
    {
        self.baseline.clone()
    }
}

/// What a window hands back lists the ignore list and its tombstones in
/// order, so two windows that end on the same list write the same fields.
pub proof fn the_outcome_lists_exclusions_in_order(app: SettingsApp)
    requires
        app.wf(),
    ensures
        crate::order::strictly_sorted(app.spec_outcome_draft().exclusions),
        crate::order::strictly_sorted(app.spec_outcome_draft().removed_default_exclusions),
{
    crate::exclusion::the_list_stays_in_order(app.list);
}

/// A window closed without edits hands back "nothing changed".
pub proof fn no_edits_means_no_change(app: SettingsApp, initial: SettingsModel)
    requires
        app.spec_result() is None,
        app.spec_draft() == initial,
        app.spec_baseline() == (SettingsModel {
            exclusions: app.spec_list_ids(),
            removed_default_exclusions: app.spec_list_removed(),
            ..initial
        }),
    ensures
        app.spec_outcome_draft() == app.spec_baseline(),
{
}

} // verus!
