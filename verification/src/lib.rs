//! GlowKey's platform-neutral logic: the rules its macOS and Windows shells
//! follow, as functions from plain values to plain values.
use vstd::prelude::*;

pub mod default_exclusions;
pub mod editing;
pub mod exclusion;
pub mod keys;
pub mod log;
pub mod macos;
pub mod macro_import;
pub mod order;
pub mod session;
pub mod settings;
pub mod text;
pub mod windows;

verus! {

} // verus!
