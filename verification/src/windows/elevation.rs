//! Whether the window in front is out of reach, and why.
//!
//! User Interface Privilege Isolation forbids a process at one integrity level
//! from sending input to a window owned by a higher one: the input is dropped
//! without an error. The levels themselves are read from process tokens at the
//! edge; what they mean is decided here.
use vstd::prelude::*;

verus! {

/// Why injection into the foreground window would not arrive.
#[derive(Clone, Copy, Debug, PartialEq, Eq, Structural)]
pub enum Reach {
    /// Injection will be delivered.
    Reachable,
    /// The window belongs to a higher integrity level; its input is discarded.
    BlockedByElevation,
    /// The window could not be examined at all. Deliberately not folded into
    /// [`Reach::Reachable`]: "could not tell" and "it works" are different answers.
    Unknown,
}

/// What two integrity levels mean for injection: `ours` is this process's,
/// `theirs` the level of the process owning the window in front, each `None`
/// where it could not be read. Only a strictly higher level blocks.
pub open spec fn reach_of(ours: Option<u32>, theirs: Option<u32>) -> Reach {
    match (ours, theirs) {
        (Some(o), Some(t)) => if t > o { Reach::BlockedByElevation } else { Reach::Reachable },
        _ => Reach::Unknown,
    }
}

/// Whether GlowKey can inject into the window in front, given the integrity
/// level of this process and of the window's owner (`None` where the query
/// failed, or there is no window).
pub fn foreground_reach(ours: Option<u32>, theirs: Option<u32>) -> (r: Reach)
    ensures
        r == reach_of(ours, theirs),
{
    match (ours, theirs) {
        (Some(o), Some(t)) => {
            if t > o {
                Reach::BlockedByElevation
            } else {
                Reach::Reachable
            }
        },
        _ => Reach::Unknown,
    }
}

/// An equal level always reaches: the ordinary case for every application the
/// user types into.
pub proof fn an_equal_level_reaches(level: u32)
    ensures
        reach_of(Some(level), Some(level)) == Reach::Reachable,
{
}

} // verus!
