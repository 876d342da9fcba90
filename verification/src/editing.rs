//! The settings window's editing rules, shared by both platforms' windows:
//! how typed names and keys are normalized, when a macro is acceptable, and
//! how an edit lands in the macro table and the personal-word list.
use vstd::prelude::*;

use crate::settings::{Macro, MacroModel, WordOverride, WordOverrideModel, WordPreference, macros_view, words_view};
use crate::text::{ascii_lower_seq, chars_of, eq_ignore_ascii_case_chars, lowercase, string_of, to_lowercase, trim, trim_chars};

verus! {

/// `s` trimmed of surrounding white space.
pub fn trimmed(s: &str) -> (r: String)
    ensures
        r@ == trim(s@),
{
    let chars = chars_of(s);
    let t = trim_chars(&chars);
    string_of(&t)
}

/// What a typed name normalizes to: trimmed, then lowercased; `None` when
/// nothing is left.
pub open spec fn spec_normalized(input: Seq<char>) -> Option<Seq<char>> {
    let n = lowercase(trim(input));
    if n.len() > 0 { Some(n) } else { None }
}

/// A user-entered executable name, trimmed and lowercased (Windows identities
/// are lowercased file names), or `None` if nothing is left.
pub fn normalize_exe_name(input: &str) -> (r: Option<String>)
    ensures
        match r {
            Some(s) => spec_normalized(input@) == Some(s@),
            None => spec_normalized(input@) is None,
        },
{
    let t = trimmed(input);
    let n = to_lowercase(t.as_str());
    if n.as_str().is_empty() {
        None
    } else {
        Some(n)
    }
}

/// A personal-word key, trimmed and lowercased, or `None` if empty.
pub fn normalize_word_keys(input: &str) -> (r: Option<String>)
    ensures
        match r {
            Some(s) => spec_normalized(input@) == Some(s@),
            None => spec_normalized(input@) is None,
        },
{
    normalize_exe_name(input)
}

/// A macro's shortcut and expansion, both trimmed, when neither is left
/// empty.
pub open spec fn spec_validate_macro(shortcut: Seq<char>, expansion: Seq<char>) -> Option<(Seq<char>, Seq<char>)> {
    if trim(shortcut).len() > 0 && trim(expansion).len() > 0 {
        Some((trim(shortcut), trim(expansion)))
    } else {
        None
    }
}

/// Validates a macro for the Add/Save button: both fields trimmed, both
/// required.
pub fn validate_macro(shortcut: &str, expansion: &str) -> (r: Option<(String, String)>)
    ensures
        match r {
            Some((s, e)) => spec_validate_macro(shortcut@, expansion@) == Some((s@, e@)),
            None => spec_validate_macro(shortcut@, expansion@) is None,
        },
{
    let s = trimmed(shortcut);
    let e = trimmed(expansion);
    if s.as_str().is_empty() || e.as_str().is_empty() {
        None
    } else {
        Some((s, e))
    }
}

/// The first position in `ms` whose shortcut equals `s` ignoring ASCII case,
/// or -1.
pub open spec fn shortcut_position(ms: Seq<MacroModel>, s: Seq<char>) -> int
    decreases ms.len(),
{
    if ms.len() == 0 {
        -1
    } else {
        let before = shortcut_position(ms.drop_last(), s);
        if before >= 0 {
            before
        } else if ascii_lower_seq(ms.last().shortcut) == ascii_lower_seq(s) {
            ms.len() - 1
        } else {
            -1
        }
    }
}

/// The macro table after an Add/Save: the entry at `edit_index` when that is
/// in range, else the entry with the same shortcut ignoring ASCII case, is
/// replaced; a new shortcut is appended.
pub open spec fn spec_upsert_macro(ms: Seq<MacroModel>, m: MacroModel, edit_index: Option<usize>) -> Seq<MacroModel> {
    if edit_index is Some && edit_index.unwrap() < ms.len() {
        ms.update(edit_index.unwrap() as int, m)
    } else if shortcut_position(ms, m.shortcut) >= 0 {
        ms.update(shortcut_position(ms, m.shortcut), m)
    } else {
        ms.push(m)
    }
}

pub proof fn lemma_shortcut_position_bounds(ms: Seq<MacroModel>, s: Seq<char>)
    ensures
        -1 <= shortcut_position(ms, s) < ms.len(),
        shortcut_position(ms, s) >= 0 ==> ascii_lower_seq(ms[shortcut_position(ms, s)].shortcut)
            == ascii_lower_seq(s),
    decreases ms.len(),
{
    if ms.len() > 0 {
        lemma_shortcut_position_bounds(ms.drop_last(), s);
    }
}

/// Where the shortcut `s` is in the table, ignoring ASCII case.
pub fn find_shortcut(macros: &Vec<Macro>, s: &str) -> (r: Option<usize>)
    ensures
        match r {
            Some(i) => i as int == shortcut_position(macros_view(macros@), s@),
            None => shortcut_position(macros_view(macros@), s@) == -1,
        },
{
    let target = chars_of(s);
    let ghost mv = macros_view(macros@);
    for i in 0..macros.len()
        invariant
            mv == macros_view(macros@),
            target@ == s@,
            shortcut_position(mv.take(i as int), s@) == -1,
    {
        let sc = chars_of(macros[i].shortcut.as_str());
        assert(mv.take(i + 1).drop_last() =~= mv.take(i as int));
        assert(mv[i as int] == macros@[i as int]@);
        if eq_ignore_ascii_case_chars(&sc, &target) {
            assert(shortcut_position(mv.take(i + 1), s@) == i);
            proof {
                lemma_position_extends(mv, s@, i as int);
            }
            return Some(i);
        }
    }
    assert(mv.take(macros.len() as int) =~= mv);
    None
}

/// Once a position is found in a prefix, it is the position in the whole.
proof fn lemma_position_extends(ms: Seq<MacroModel>, s: Seq<char>, i: int)
    requires
        0 <= i < ms.len(),
        shortcut_position(ms.take(i + 1), s) == i,
    ensures
        shortcut_position(ms, s) == i,
    decreases ms.len(),
{
    if ms.len() == i + 1 {
        assert(ms.take(i + 1) =~= ms);
    } else {
        assert(ms.drop_last().take(i + 1) =~= ms.take(i + 1));
        lemma_position_extends(ms.drop_last(), s, i);
    }
}

/// An entry whose shortcut matches, ignoring ASCII case, is found.
pub proof fn lemma_position_found(ms: Seq<MacroModel>, s: Seq<char>, i: int)
    requires
        0 <= i < ms.len(),
        ascii_lower_seq(ms[i].shortcut) == ascii_lower_seq(s),
    ensures
        shortcut_position(ms, s) >= 0,
    decreases ms.len(),
{
    if i < ms.len() - 1 {
        lemma_position_found(ms.drop_last(), s, i);
    }
}

/// After a macro is added (not an explicit edit), its shortcut is found in
/// the table.
pub proof fn an_upserted_shortcut_is_found(ms: Seq<MacroModel>, m: MacroModel)
    ensures
        shortcut_position(spec_upsert_macro(ms, m, None), m.shortcut) >= 0,
{
    lemma_shortcut_position_bounds(ms, m.shortcut);
    let r = spec_upsert_macro(ms, m, None);
    if shortcut_position(ms, m.shortcut) >= 0 {
        lemma_position_found(r, m.shortcut, shortcut_position(ms, m.shortcut));
    } else {
        lemma_position_found(r, m.shortcut, ms.len() as int);
    }
}

/// Inserts or updates a macro: an explicit edit of the entry at
/// `edit_index` (when in range) replaces it outright; otherwise an entry with
/// the same shortcut, compared ignoring ASCII case, is replaced rather than
/// duplicated; a new shortcut is appended.
pub fn upsert_macro(macros: &mut Vec<Macro>, shortcut: String, expansion: String, edit_index: Option<usize>)
    ensures
        macros_view(final(macros)@) == spec_upsert_macro(
            macros_view(old(macros)@),
            MacroModel { shortcut: shortcut@, expansion: expansion@ },
            edit_index,
        ),
{
    let ghost old_view = macros_view(macros@);
    let ghost m = MacroModel { shortcut: shortcut@, expansion: expansion@ };
    proof {
        lemma_shortcut_position_bounds(old_view, shortcut@);
    }
    if let Some(i) = edit_index {
        if i < macros.len() {
            macros.set(i, Macro { shortcut, expansion });
            assert(macros_view(macros@) =~= old_view.update(i as int, m));
            return;
        }
    }
    match find_shortcut(macros, shortcut.as_str()) {
        Some(j) => {
            macros.set(j, Macro { shortcut, expansion });
            assert(macros_view(macros@) =~= old_view.update(j as int, m));
        },
        None => {
            macros.push(Macro { shortcut, expansion });
            assert(macros_view(macros@) =~= old_view.push(m));
        },
    }
}

/// The first position in `ws` whose keys are exactly `k`, or -1.
pub open spec fn keys_position(ws: Seq<WordOverrideModel>, k: Seq<char>) -> int
    decreases ws.len(),
{
    if ws.len() == 0 {
        -1
    } else {
        let before = keys_position(ws.drop_last(), k);
        if before >= 0 {
            before
        } else if ws.last().keys == k {
            ws.len() - 1
        } else {
            -1
        }
    }
}

/// The personal-word list after a save: the entry at `edit_index` (when in
/// range) is replaced; else an entry with the same keys takes the new
/// preference; new keys are appended.
pub open spec fn spec_upsert_word(ws: Seq<WordOverrideModel>, keys: Seq<char>, prefer: WordPreference, edit_index: Option<usize>) -> Seq<WordOverrideModel> {
    if edit_index is Some && edit_index.unwrap() < ws.len() {
        ws.update(edit_index.unwrap() as int, WordOverrideModel { keys, prefer })
    } else if keys_position(ws, keys) >= 0 {
        ws.update(keys_position(ws, keys), WordOverrideModel { keys, prefer })
    } else {
        ws.push(WordOverrideModel { keys, prefer })
    }
}

pub proof fn lemma_keys_position_bounds(ws: Seq<WordOverrideModel>, k: Seq<char>)
    ensures
        -1 <= keys_position(ws, k) < ws.len(),
        keys_position(ws, k) >= 0 ==> ws[keys_position(ws, k)].keys == k,
    decreases ws.len(),
{
    if ws.len() > 0 {
        lemma_keys_position_bounds(ws.drop_last(), k);
    }
}

proof fn lemma_keys_position_extends(ws: Seq<WordOverrideModel>, k: Seq<char>, i: int)
    requires
        0 <= i < ws.len(),
        keys_position(ws.take(i + 1), k) == i,
    ensures
        keys_position(ws, k) == i,
    decreases ws.len(),
{
    if ws.len() == i + 1 {
        assert(ws.take(i + 1) =~= ws);
    } else {
        assert(ws.drop_last().take(i + 1) =~= ws.take(i + 1));
        lemma_keys_position_extends(ws.drop_last(), k, i);
    }
}

/// Where the word `keys` is in the list.
pub fn find_keys(overrides: &Vec<WordOverride>, keys: &str) -> (r: Option<usize>)
    ensures
        match r {
            Some(i) => i as int == keys_position(words_view(overrides@), keys@),
            None => keys_position(words_view(overrides@), keys@) == -1,
        },
{
    let ghost wv = words_view(overrides@);
    for i in 0..overrides.len()
        invariant
            wv == words_view(overrides@),
            keys_position(wv.take(i as int), keys@) == -1,
    {
        assert(wv.take(i + 1).drop_last() =~= wv.take(i as int));
        assert(wv[i as int] == overrides@[i as int]@);
        if crate::text::str_eq(overrides[i].keys.as_str(), keys) {
            assert(keys_position(wv.take(i + 1), keys@) == i);
            proof {
                lemma_keys_position_extends(wv, keys@, i as int);
            }
            return Some(i);
        }
    }
    assert(wv.take(overrides.len() as int) =~= wv);
    None
}

/// Inserts or updates a personal-word decision, by the same edit-index-first,
/// then-match-by-keys rule as [`upsert_macro`]; `keys` is already normalized.
pub fn upsert_word_override(overrides: &mut Vec<WordOverride>, keys: String, prefer: WordPreference, edit_index: Option<usize>)
    ensures
        words_view(final(overrides)@) == spec_upsert_word(words_view(old(overrides)@), keys@, prefer, edit_index),
{
    let ghost old_view = words_view(overrides@);
    let ghost w = WordOverrideModel { keys: keys@, prefer };
    proof {
        lemma_keys_position_bounds(old_view, keys@);
    }
    if let Some(i) = edit_index {
        if i < overrides.len() {
            overrides.set(i, WordOverride { keys, prefer });
            assert(words_view(overrides@) =~= old_view.update(i as int, w));
            return;
        }
    }
    match find_keys(overrides, keys.as_str()) {
        Some(j) => {
            overrides.set(j, WordOverride { keys, prefer });
            assert(words_view(overrides@) =~= old_view.update(j as int, w));
        },
        None => {
            overrides.push(WordOverride { keys, prefer });
            assert(words_view(overrides@) =~= old_view.push(w));
        },
    }
}

/// The settings window's tabs: the four the macOS window has, in its order.
#[derive(Clone, Copy, Debug, PartialEq, Eq, Structural)]
pub enum Tab {
    General,
    Typing,
    Corrections,
    Apps,
}

impl Tab {
    /// The tabs in order, each with its title in the chosen language.
    pub fn all(vietnamese: bool) -> (r: Vec<(Tab, &'static str)>)
        ensures
            r@.len() == 4,
            r@[0].0 == Tab::General,
            r@[1].0 == Tab::Typing,
            r@[2].0 == Tab::Corrections,
            r@[3].0 == Tab::Apps,
            forall|i: int| 0 <= i < 4 ==> r@[i].1@.len() > 0,
            r@[0].1@ == (if vietnamese { "Chung"@ } else { "General"@ }),
            r@[1].1@ == (if vietnamese { "Gõ phím"@ } else { "Typing"@ }),
            r@[2].1@ == (if vietnamese { "Sửa lỗi"@ } else { "Corrections"@ }),
            r@[3].1@ == (if vietnamese { "Ứng dụng & gõ tắt"@ } else { "Apps & macros"@ }),
    {
        proof {
            reveal_strlit("General");
            reveal_strlit("Chung");
            reveal_strlit("Typing");
            reveal_strlit("Gõ phím");
            reveal_strlit("Corrections");
            reveal_strlit("Sửa lỗi");
            reveal_strlit("Apps & macros");
            reveal_strlit("Ứng dụng & gõ tắt");
        }
        if vietnamese {
            vec![
                (Tab::General, "Chung"),
                (Tab::Typing, "Gõ phím"),
                (Tab::Corrections, "Sửa lỗi"),
                (Tab::Apps, "Ứng dụng & gõ tắt"),
            ]
        } else {
            vec![
                (Tab::General, "General"),
                (Tab::Typing, "Typing"),
                (Tab::Corrections, "Corrections"),
                (Tab::Apps, "Apps & macros"),
            ]
        }
    }
}

/// How a personal-word decision is named to the user.
pub fn preference_label(pref: WordPreference, vietnamese: bool) -> (r: &'static str)
    ensures
        r@ == match pref {
            WordPreference::Raw => if vietnamese { "Giữ như gõ"@ } else { "Keep as typed"@ },
            WordPreference::Vietnamese => if vietnamese { "Giữ tiếng Việt"@ } else { "Keep Vietnamese"@ },
        },
{
    match pref {
        WordPreference::Raw => if vietnamese { "Giữ như gõ" } else { "Keep as typed" },
        WordPreference::Vietnamese => if vietnamese { "Giữ tiếng Việt" } else { "Keep Vietnamese" },
    }
}

/// Saving an edit of row `i` (in range) replaces that row with exactly the
/// new pair and leaves every other row, and the length, as they were.
pub proof fn an_edit_replaces_its_row(ms: Seq<MacroModel>, m: MacroModel, i: usize)
    requires
        i < ms.len(),
    ensures
        spec_upsert_macro(ms, m, Some(i)).len() == ms.len(),
        spec_upsert_macro(ms, m, Some(i))[i as int].shortcut == m.shortcut,
        spec_upsert_macro(ms, m, Some(i))[i as int].expansion == m.expansion,
        forall|j: int| 0 <= j < ms.len() && j != i ==> #[trigger] spec_upsert_macro(ms, m, Some(i))[j] == ms[j],
{
}

/// Adding a macro (no row being edited) either replaces the one row whose
/// shortcut matches, ignoring ASCII case, with exactly the new pair, or, when
/// none matches, appends it; nothing else changes and nothing is lost.
pub proof fn an_add_replaces_or_appends(ms: Seq<MacroModel>, m: MacroModel)
    ensures
        ({
            let r = spec_upsert_macro(ms, m, None);
            ||| (r.len() == ms.len() + 1 && r[ms.len() as int] == m && (forall|j: int| 0 <= j < ms.len() ==> #[trigger] r[j] == ms[j])
                && (forall|j: int| 0 <= j < ms.len() ==> ascii_lower_seq(#[trigger] ms[j].shortcut) != ascii_lower_seq(m.shortcut)))
            ||| (exists|p: int| 0 <= p < ms.len() && ascii_lower_seq(#[trigger] ms[p].shortcut) == ascii_lower_seq(m.shortcut)
                && r.len() == ms.len() && r[p] == m && (forall|j: int| 0 <= j < ms.len() && j != p ==> #[trigger] r[j] == ms[j]))
        }),
{
    lemma_shortcut_position_bounds(ms, m.shortcut);
    let p = shortcut_position(ms, m.shortcut);
    if p < 0 {
        assert forall|j: int| 0 <= j < ms.len() implies ascii_lower_seq(#[trigger] ms[j].shortcut) != ascii_lower_seq(m.shortcut) by {
            if ascii_lower_seq(ms[j].shortcut) == ascii_lower_seq(m.shortcut) {
                lemma_position_found(ms, m.shortcut, j);
            }
        }
    } else {
        let r = spec_upsert_macro(ms, m, None);
        assert(0 <= p < ms.len() && ascii_lower_seq(ms[p].shortcut) == ascii_lower_seq(m.shortcut) && r.len() == ms.len()
            && r[p] == m && (forall|j: int| 0 <= j < ms.len() && j != p ==> #[trigger] r[j] == ms[j]));
    }
}

/// Saving an edit of personal word `i` (in range) replaces that entry with
/// exactly the new keys and preference; every other entry stays.
pub proof fn a_word_edit_replaces_its_row(ws: Seq<WordOverrideModel>, keys: Seq<char>, prefer: WordPreference, i: usize)
    requires
        i < ws.len(),
    ensures
        spec_upsert_word(ws, keys, prefer, Some(i)).len() == ws.len(),
        spec_upsert_word(ws, keys, prefer, Some(i))[i as int].keys == keys,
        spec_upsert_word(ws, keys, prefer, Some(i))[i as int].prefer == prefer,
        forall|j: int| 0 <= j < ws.len() && j != i ==> #[trigger] spec_upsert_word(ws, keys, prefer, Some(i))[j] == ws[j],
{
}

} // verus!
