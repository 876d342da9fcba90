//! Importing a macro table into the one in force: how many rows collide with
//! an existing shortcut, how the rows are merged, and what the user is told
//! about it.
use vstd::prelude::*;
use vstd::string::StringExecFns;

use crate::editing::{find_shortcut, lemma_shortcut_position_bounds, shortcut_position};
use crate::settings::{Macro, MacroModel, macros_view};
use crate::text::{decimal, decimal_string, trim_start};

verus! {

/// What an imported row does to an existing shortcut.
#[derive(Clone, Copy, Debug, PartialEq, Eq, Structural)]
pub enum MacroConflict {
    /// Keep the existing macro; the row is skipped.
    Skip,
    /// The row replaces the existing macro.
    Replace,
}

/// The table, added count and skipped count after importing `rows` in order
/// into `table`: a row whose shortcut is already in the table (ignoring ASCII
/// case, and including rows imported before it) is skipped or replaces that
/// entry; any other row is appended.
pub open spec fn spec_import(table: Seq<MacroModel>, rows: Seq<MacroModel>, conflict: MacroConflict) -> (Seq<MacroModel>, nat, nat)
    decreases rows.len(),
{
    if rows.len() == 0 {
        (table, 0, 0)
    } else {
        let (t, added, skipped) = spec_import(table, rows.drop_last(), conflict);
        let m = rows.last();
        let pos = shortcut_position(t, m.shortcut);
        if pos >= 0 {
            match conflict {
                MacroConflict::Skip => (t, added, skipped + 1),
                MacroConflict::Replace => (t.update(pos, m), added + 1, skipped),
            }
        } else {
            (t.push(m), added + 1, skipped)
        }
    }
}

/// How many of `rows` name a shortcut the table already has.
pub open spec fn spec_conflicts(table: Seq<MacroModel>, rows: Seq<MacroModel>) -> nat
    decreases rows.len(),
{
    if rows.len() == 0 {
        0
    } else {
        spec_conflicts(table, rows.drop_last()) + if shortcut_position(table, rows.last().shortcut) >= 0 { 1nat } else { 0nat }
    }
}

proof fn lemma_import_counts(table: Seq<MacroModel>, rows: Seq<MacroModel>, conflict: MacroConflict)
    ensures
        spec_import(table, rows, conflict).1 + spec_import(table, rows, conflict).2 == rows.len(),
    decreases rows.len(),
{
    if rows.len() > 0 {
        lemma_import_counts(table, rows.drop_last(), conflict);
    }
}

/// How many rows of an import would collide with an existing shortcut.
pub fn macro_conflicts(table: &Vec<Macro>, rows: &Vec<Macro>) -> (r: usize)
    ensures
        r == spec_conflicts(macros_view(table@), macros_view(rows@)),
{
    let ghost rv = macros_view(rows@);
    let mut n: usize = 0;
    for i in 0..rows.len()
        invariant
            rv == macros_view(rows@),
            n == spec_conflicts(macros_view(table@), rv.take(i as int)),
            n <= i,
    {
        assert(rv.take(i + 1).drop_last() =~= rv.take(i as int));
        assert(rv[i as int] == rows@[i as int]@);
        if find_shortcut(table, rows[i].shortcut.as_str()).is_some() {
            n = n + 1;
        }
    }
    assert(rv.take(rows.len() as int) =~= rv);
    n
}

/// Imports `rows` into `table` (see [`spec_import`]) and returns how many
/// were added (or replaced an entry) and how many were skipped.
pub fn import_macros(table: &mut Vec<Macro>, rows: &Vec<Macro>, conflict: MacroConflict) -> (r: (usize, usize))
    ensures
        macros_view(final(table)@) == spec_import(macros_view(old(table)@), macros_view(rows@), conflict).0,
        r.0 == spec_import(macros_view(old(table)@), macros_view(rows@), conflict).1,
        r.1 == spec_import(macros_view(old(table)@), macros_view(rows@), conflict).2,
        r.0 + r.1 == rows@.len(),
{
    let ghost start = macros_view(table@);
    let ghost rv = macros_view(rows@);
    let mut added: usize = 0;
    let mut skipped: usize = 0;
    for i in 0..rows.len()
        invariant
            rv == macros_view(rows@),
            spec_import(start, rv.take(i as int), conflict) == (macros_view(table@), added as nat, skipped as nat),
            added + skipped == i,
    {
        proof {
            lemma_import_counts(start, rv.take(i as int), conflict);
            lemma_shortcut_position_bounds(macros_view(table@), rows@[i as int]@.shortcut);
        }
        assert(rv.take(i + 1).drop_last() =~= rv.take(i as int));
        assert(rv[i as int] == rows@[i as int]@);
        let row = rows[i].clone();
        let ghost before = macros_view(table@);
        match find_shortcut(table, row.shortcut.as_str()) {
            Some(j) => match conflict {
                MacroConflict::Skip => {
                    skipped = skipped + 1;
                },
                MacroConflict::Replace => {
                    table.set(j, row);
                    assert(macros_view(table@) =~= before.update(j as int, rv[i as int]));
                    added = added + 1;
                },
            },
            None => {
                table.push(row);
                assert(macros_view(table@) =~= before.push(rv[i as int]));
                added = added + 1;
            },
        }
    }
    assert(rv.take(rows.len() as int) =~= rv);
    (added, skipped)
}

/// The largest macro table read: a real one is a few kilobytes, and reading
/// runs where a long stall would stop typing.
pub const MAX_TABLE_BYTES: u64 = 4 * 1024 * 1024;

/// Why an import stopped before merging anything.
#[derive(Clone, Copy, Debug, PartialEq, Eq, Structural)]
pub enum ImportProblem {
    TooLarge,
    Unreadable,
    LegacyViqr,
    /// Nothing parsed from a file that looked like a JSON table.
    NoMacrosInJson,
    /// Nothing parsed from a line-oriented file.
    NoMacrosInLines,
    /// The session could not take the import right now.
    Busy,
}

/// Whether a text looks like a JSON table: its first non-blank character is
/// `[`.
pub fn looks_like_json(text: &str) -> (r: bool)
    ensures
        r == (trim_start(text@).len() > 0 && trim_start(text@)[0] == '['),
{
    let chars = crate::text::chars_of(text);
    let n = chars.len();
    let mut i: usize = 0;
    while i < n && crate::text::is_space_char(chars[i])
        invariant
            chars@ == text@,
            n == chars@.len(),
            i <= n,
            forall|k: int| 0 <= k < i ==> crate::text::is_space(#[trigger] chars@[k]),
        decreases n - i,
    {
        i = i + 1;
    }
    proof {
        crate::text::lemma_trim_start_skip(text@, i as int);
        if i < n {
            assert(trim_start(text@.skip(i as int)) == text@.skip(i as int));
        } else {
            assert(text@.skip(i as int) =~= Seq::<char>::empty());
        }
    }
    i < n && chars[i] == '['
}

/// The title and detail of the notice an import problem gets.
pub open spec fn spec_problem_notice(p: ImportProblem, vi: bool) -> (Seq<char>, Seq<char>) {
    match p {
        ImportProblem::TooLarge => if vi {
            ("Tệp đó quá lớn."@, "Bảng gõ tắt thường chỉ vài kilobyte."@)
        } else {
            ("That file is too large."@, "A macro table is normally a few kilobytes."@)
        },
        ImportProblem::Unreadable => if vi { ("Không đọc được tệp đó."@, ""@) } else { ("Could not read that file."@, ""@) },
        ImportProblem::LegacyViqr => if vi {
            ("Đó là bảng gõ tắt UniKey cũ."@, "Nội dung mã VIQR, GlowKey không đọc được. Mở lại bằng UniKey và lưu lại để chuyển sang Unicode."@)
        } else {
            ("That is an old UniKey table."@, "Its text is VIQR-encoded, which GlowKey does not read. Open it in UniKey and save it again to convert it to Unicode."@)
        },
        ImportProblem::NoMacrosInJson => if vi {
            ("Tệp đó không có gõ tắt nào."@, "Không đọc được bảng JSON đó."@)
        } else {
            ("No macros in that file."@, "That JSON table could not be read."@)
        },
        ImportProblem::NoMacrosInLines => if vi {
            ("Tệp đó không có gõ tắt nào."@, "Cần các dòng dạng viếttắt:nội dung."@)
        } else {
            ("No macros in that file."@, "Expected lines of the form shortcut:expansion."@)
        },
        ImportProblem::Busy => if vi {
            ("Chưa nhập được lúc này."@, "Thử lại sau một lát."@)
        } else {
            ("Could not import right now."@, "Try again in a moment."@)
        },
    }
}

/// The notice for an import problem.
pub fn problem_notice(p: ImportProblem, vi: bool) -> (r: (&'static str, &'static str))
    ensures
        (r.0@, r.1@) == spec_problem_notice(p, vi),
{
    match p {
        ImportProblem::TooLarge => if vi {
            ("Tệp đó quá lớn.", "Bảng gõ tắt thường chỉ vài kilobyte.")
        } else {
            ("That file is too large.", "A macro table is normally a few kilobytes.")
        },
        ImportProblem::Unreadable => if vi { ("Không đọc được tệp đó.", "") } else { ("Could not read that file.", "") },
        ImportProblem::LegacyViqr => if vi {
            ("Đó là bảng gõ tắt UniKey cũ.", "Nội dung mã VIQR, GlowKey không đọc được. Mở lại bằng UniKey và lưu lại để chuyển sang Unicode.")
        } else {
            ("That is an old UniKey table.", "Its text is VIQR-encoded, which GlowKey does not read. Open it in UniKey and save it again to convert it to Unicode.")
        },
        ImportProblem::NoMacrosInJson => if vi {
            ("Tệp đó không có gõ tắt nào.", "Không đọc được bảng JSON đó.")
        } else {
            ("No macros in that file.", "That JSON table could not be read.")
        },
        ImportProblem::NoMacrosInLines => if vi {
            ("Tệp đó không có gõ tắt nào.", "Cần các dòng dạng viếttắt:nội dung.")
        } else {
            ("No macros in that file.", "Expected lines of the form shortcut:expansion.")
        },
        ImportProblem::Busy => if vi {
            ("Chưa nhập được lúc này.", "Thử lại sau một lát.")
        } else {
            ("Could not import right now.", "Try again in a moment.")
        },
    }
}

/// What stops an import, checked in order: a file over the cap, a file that
/// could not be read, a legacy VIQR table, a file with no macros in it.
/// `None` when the rows can be merged.
pub open spec fn spec_import_problem(len: Option<u64>, text: Option<Seq<char>>, legacy: bool, parsed_rows: nat) -> Option<ImportProblem> {
    if len is Some && len.unwrap() > MAX_TABLE_BYTES {
        Some(ImportProblem::TooLarge)
    } else if text is None {
        Some(ImportProblem::Unreadable)
    } else if legacy {
        Some(ImportProblem::LegacyViqr)
    } else if parsed_rows == 0 {
        if trim_start(text.unwrap()).len() > 0 && trim_start(text.unwrap())[0] == '[' {
            Some(ImportProblem::NoMacrosInJson)
        } else {
            Some(ImportProblem::NoMacrosInLines)
        }
    } else {
        None
    }
}

/// What stops an import of a file of `len` bytes (when its size is known),
/// read as `text` (`None` when it could not be read), that is or is not a
/// legacy table, and parsed into `parsed_rows` rows.
pub fn import_problem(len: Option<u64>, text: Option<&str>, legacy: bool, parsed_rows: usize) -> (r: Option<ImportProblem>)
    ensures
        r == spec_import_problem(len, match text { Some(t) => Some(t@), None => None }, legacy, parsed_rows as nat),
{
    if let Some(l) = len {
        if l > MAX_TABLE_BYTES {
            return Some(ImportProblem::TooLarge);
        }
    }
    let t = match text {
        Some(t) => t,
        None => {
            return Some(ImportProblem::Unreadable);
        },
    };
    if legacy {
        return Some(ImportProblem::LegacyViqr);
    }
    if parsed_rows == 0 {
        if looks_like_json(t) {
            Some(ImportProblem::NoMacrosInJson)
        } else {
            Some(ImportProblem::NoMacrosInLines)
        }
    } else {
        None
    }
}

/// The notice after an import: how many macros were imported, and how many
/// were skipped because their shortcuts exist (said only when some were).
pub open spec fn spec_imported_notice(added: nat, skipped: nat, vi: bool) -> (Seq<char>, Seq<char>) {
    (
        if vi { "Đã nhập "@ + decimal(added) + " gõ tắt."@ } else { "Imported "@ + decimal(added) + " macros."@ },
        if skipped == 0 {
            Seq::empty()
        } else if vi {
            "Bỏ qua "@ + decimal(skipped) + " — các chữ viết tắt đó đã có."@
        } else {
            decimal(skipped) + " skipped — those shortcuts already exist."@
        },
    )
}

/// The notice after an import.
pub fn imported_notice(added: usize, skipped: usize, vi: bool) -> (r: (String, String))
    ensures
        (r.0@, r.1@) == spec_imported_notice(added as nat, skipped as nat, vi),
{
    let mut title = if vi { "Đã nhập ".to_owned() } else { "Imported ".to_owned() };
    title.append(decimal_string(added).as_str());
    title.append(if vi { " gõ tắt." } else { " macros." });
    let detail = if skipped == 0 {
        proof {
            reveal_strlit("");
        }
        "".to_owned()
    } else if vi {
        let mut d = "Bỏ qua ".to_owned();
        d.append(decimal_string(skipped).as_str());
        d.append(" — các chữ viết tắt đó đã có.");
        d
    } else {
        let mut d = decimal_string(skipped);
        d.append(" skipped — those shortcuts already exist.");
        d
    };
    (title, detail)
}

} // verus!
