//! The per-platform application tables: which applications ship excluded,
//! which of those are terminals, and which are Chromium-family browsers.
//!
//! An application's identity is whatever its platform calls it — a bundle
//! identifier on macOS, a lowercased executable file name on Windows — so each
//! platform has its own tables. The top-level functions read the macOS table,
//! which is also what every non-Windows build ships.
use vstd::prelude::*;

use crate::text::{chars_of, chars_eq, has_prefix, starts_with_chars};

pub mod macos;
pub mod windows;

verus! {

/// Whether some entry of `table` is a prefix of `id`.
pub open spec fn matches_any_prefix(table: Seq<Seq<char>>, id: Seq<char>) -> bool {
    exists|i: int| 0 <= i < table.len() && has_prefix(id, #[trigger] table[i])
}

/// Whether `table` holds exactly `id`.
pub fn table_contains(table: &Vec<&str>, id: &str) -> (r: bool)
    ensures
        r == table@.map_values(|s: &str| s@).contains(id@),
{
    let ghost views = table@.map_values(|s: &str| s@);
    let target = chars_of(id);
    for i in 0..table.len()
        invariant
            views == table@.map_values(|s: &str| s@),
            target@ == id@,
            forall|k: int| 0 <= k < i ==> views[k] != id@,
    {
        let entry = chars_of(table[i]);
        if chars_eq(&entry, &target) {
            assert(views[i as int] == id@);
            return true;
        }
    }
    assert(!views.contains(id@));
    false
}

/// Whether some entry of `table` is a prefix of `id`.
pub fn table_has_prefix_of(table: &Vec<&str>, id: &str) -> (r: bool)
    ensures
        r == matches_any_prefix(table@.map_values(|s: &str| s@), id@),
{
    let ghost views = table@.map_values(|s: &str| s@);
    let target = chars_of(id);
    for i in 0..table.len()
        invariant
            views == table@.map_values(|s: &str| s@),
            target@ == id@,
            forall|k: int| 0 <= k < i ==> !has_prefix(id@, #[trigger] views[k]),
    {
        let entry = chars_of(table[i]);
        if starts_with_chars(&target, &entry) {
            assert(has_prefix(id@, views[i as int]));
            return true;
        }
    }
    false
}

/// Whether this bundle identifier is a known terminal (macOS table).
pub fn is_terminal(app_id: &str) -> (r: bool)
    ensures
        r == macos::spec_terminal_exclusions().contains(app_id@),
{
    macos::is_terminal(app_id)
}

/// Whether this bundle identifier is a Chromium-family browser (macOS table).
pub fn is_chromium_app(app_id: &str) -> (r: bool)
    ensures
        r == matches_any_prefix(macos::spec_chromium_app_prefixes(), app_id@),
{
    macos::is_chromium_app(app_id)
}

/// Which platform's tables apply.
#[derive(Clone, Copy, Debug, PartialEq, Eq, Structural)]
pub enum Platform {
    /// Bundle identifiers.
    MacOs,
    /// Lowercased executable file names.
    Windows,
}

/// The exclusions a platform ships.
pub open spec fn spec_shipped_defaults(p: Platform) -> Seq<Seq<char>> {
    match p {
        Platform::MacOs => macos::spec_default_exclusions(),
        Platform::Windows => windows::spec_default_exclusions(),
    }
}

/// The terminals a platform knows.
pub open spec fn spec_terminals(p: Platform) -> Seq<Seq<char>> {
    match p {
        Platform::MacOs => macos::spec_terminal_exclusions(),
        Platform::Windows => windows::spec_terminal_exclusions(),
    }
}

/// The exclusions a platform ships.
pub fn shipped_defaults(p: Platform) -> (v: Vec<&'static str>)
    ensures
        v@.map_values(|s: &str| s@) == spec_shipped_defaults(p),
{
    match p {
        Platform::MacOs => macos::default_exclusions(),
        Platform::Windows => windows::default_exclusions(),
    }
}

/// Whether `app_id` is a terminal on this platform.
pub fn is_terminal_on(p: Platform, app_id: &str) -> (r: bool)
    ensures
        r == spec_terminals(p).contains(app_id@),
{
    match p {
        Platform::MacOs => macos::is_terminal(app_id),
        Platform::Windows => windows::is_terminal(app_id),
    }
}

} // verus!
