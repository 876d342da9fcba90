//! The clipboard tools: transform the clipboard's text in place. Opening,
//! reading and writing the clipboard happen at the edge; whether and what to
//! write is decided here.
use vstd::prelude::*;

use crate::text::{to_lowercase, to_uppercase};

verus! {

/// One of the case tools.
#[derive(Clone, Copy, Debug, PartialEq, Eq, Structural)]
pub enum CaseTool {
    Upper,
    Lower,
}

/// What a tool makes of a text.
pub open spec fn spec_apply(tool: CaseTool, text: Seq<char>) -> Seq<char> {
    match tool {
        CaseTool::Upper => crate::text::uppercase(text),
        CaseTool::Lower => crate::text::lowercase(text),
    }
}

/// What to write back for the clipboard's text (`None` when it holds no
/// text): nothing when there is no text, and nothing when the tool leaves it
/// unchanged, since writing would drop the clipboard's other formats for no
/// gain.
pub open spec fn spec_transform(text: Option<Seq<char>>, tool: CaseTool) -> Option<Seq<char>> {
    match text {
        Some(t) => if spec_apply(tool, t) == t { None } else { Some(spec_apply(tool, t)) },
        None => None,
    }
}

/// What to write back to the clipboard after running a tool over its text.
pub fn transform(text: Option<&str>, tool: CaseTool) -> (r: Option<String>)
    ensures
        match r {
            Some(s) => spec_transform(match text { Some(t) => Some(t@), None => None }, tool) == Some(s@),
            None => spec_transform(match text { Some(t) => Some(t@), None => None }, tool) is None,
        },
{
    match text {
        Some(t) => {
            let out = match tool {
                CaseTool::Upper => to_uppercase(t),
                CaseTool::Lower => to_lowercase(t),
            };
            if crate::text::str_eq(out.as_str(), t) {
                None
            } else {
                Some(out)
            }
        },
        None => None,
    }
}

/// Uppercases the clipboard's text, by Unicode casing (so Vietnamese letters
/// are uppercased too).
pub fn uppercase(text: Option<&str>) -> (r: Option<String>)
    ensures
        match r {
            Some(s) => spec_transform(match text { Some(t) => Some(t@), None => None }, CaseTool::Upper) == Some(s@),
            None => spec_transform(match text { Some(t) => Some(t@), None => None }, CaseTool::Upper) is None,
        },
{
    transform(text, CaseTool::Upper)
}

/// Lowercases the clipboard's text, by Unicode casing.
pub fn lowercase(text: Option<&str>) -> (r: Option<String>)
    ensures
        match r {
            Some(s) => spec_transform(match text { Some(t) => Some(t@), None => None }, CaseTool::Lower) == Some(s@),
            None => spec_transform(match text { Some(t) => Some(t@), None => None }, CaseTool::Lower) is None,
        },
{
    transform(text, CaseTool::Lower)
}

} // verus!
