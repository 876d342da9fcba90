//! What is in front, learned from a notification rather than asked on every
//! keystroke: the application, its keyboard layout, and whether it can be
//! reached. The cross-process queries run at the edge; this holds what they
//! found and answers the keystroke path from it.
use vstd::prelude::*;

use crate::text::{ascii_lower_seq, chars_of, string_of, to_ascii_lower_chars};
use super::elevation::Reach;

verus! {

/// Whether a character separates the components of a Windows path.
pub open spec fn is_separator(c: char) -> bool {
    c == '\\' || c == '/'
}

/// What follows the last separator of a path (all of it when there is none).
pub open spec fn last_component(s: Seq<char>) -> Seq<char>
    decreases s.len(),
{
    if s.len() == 0 {
        Seq::empty()
    } else if is_separator(s.last()) {
        Seq::empty()
    } else {
        last_component(s.drop_last()).push(s.last())
    }
}

/// The lowercased final component of a Windows path: `code.exe` for
/// `C:\Program Files\Microsoft VS Code\Code.exe`. Both separators count.
pub fn file_name_of(path: &str) -> (r: String)
    ensures
        r@ == ascii_lower_seq(last_component(path@)),
{
    let chars = chars_of(path);
    let mut tail: Vec<char> = Vec::new();
    for i in 0..chars.len()
        invariant
            chars@ == path@,
            tail@ == last_component(chars@.take(i as int)),
    {
        let c = chars[i];
        assert(chars@.take(i + 1).drop_last() =~= chars@.take(i as int));
        assert(chars@.take(i + 1).last() == c);
        if c == '\\' || c == '/' {
            tail = Vec::new();
            assert(tail@ =~= last_component(chars@.take(i + 1)));
        } else {
            tail.push(c);
        }
    }
    assert(chars@.take(chars.len() as int) =~= chars@);
    let lower = to_ascii_lower_chars(&tail);
    string_of(&lower)
}

/// What the keystroke path may know about the window in front.
#[derive(Debug)]
pub struct ForegroundState {
    /// The lowercased executable file name.
    pub app: String,
    /// The foreground thread's keyboard layout, as a raw handle value.
    pub layout: isize,
    /// Whether injection into it will arrive.
    pub reach: Reach,
}

/// The foreground cache, empty until the first resolution.
pub struct Foreground {
    state: Option<ForegroundState>,
}

impl Foreground {
    /// The recorded application, layout and reach, if anything was recorded.
    pub closed spec fn spec_state(&self) -> Option<(Seq<char>, isize, Reach)> {
        match self.state {
            Some(s) => Some((s.app@, s.layout, s.reach)),
            None => None,
        }
    }

    /// The recorded reach, `Unknown` before anything is resolved.
    pub open spec fn spec_reach(&self) -> Reach {
        match self.spec_state() {
            Some((_, _, reach)) => reach,
            None => Reach::Unknown,
        }
    }

    /// Nothing resolved yet.
    pub fn new() -> (r: Self)
        ensures
            r.spec_state() is None,
    {
        Foreground { state: None }
    }

    /// The current foreground application, or `None` before anything is
    /// resolved (or when the resolution gave an empty name). The engine fails
    /// closed on `None`, which is what keeps Vietnamese out of a terminal not
    /// yet identified.
    pub fn current(&self) -> (r: Option<String>)
        ensures
            match self.spec_state() {
                Some((app, _, _)) => if app.len() > 0 {
                    r is Some && r.unwrap()@ == app
                } else {
                    r is None
                },
                None => r is None,
            },
    {
        match &self.state {
            Some(s) => {
                if s.app.as_str().is_empty() {
                    None
                } else {
                    Some(s.app.clone())
                }
            },
            None => None,
        }
    }

    /// Whether injection into the window in front will arrive; `Unknown`
    /// before anything is resolved.
    pub fn reach(&self) -> (r: Reach)
        ensures
            r == self.spec_reach(),
    {
        match &self.state {
            Some(s) => s.reach,
            None => Reach::Unknown,
        }
    }

    /// The foreground window's keyboard layout, when one was recorded; `None`
    /// tells the caller to fall back to its own thread's layout.
    pub fn keyboard_layout(&self) -> (r: Option<isize>)
        ensures
            r == match self.spec_state() {
                Some((_, layout, _)) => if layout != 0 { Some(layout) } else { None },
                None => None,
            },
    {
        match &self.state {
            Some(s) => if s.layout != 0 { Some(s.layout) } else { None },
            None => None,
        }
    }

    /// Records a newly resolved window and says whether anything changed. An
    /// unchanged name, layout and reach leaves the cache as it was; reach
    /// counts, because an elevated copy of the same program is a real change.
    pub fn update(&mut self, app: String, layout: isize, reach: Reach) -> (changed: bool)
        ensures
            final(self).spec_state() == Some((app@, layout, reach)),
            changed == (old(self).spec_state() != Some((app@, layout, reach))),
    {
        let same = match &self.state {
            Some(s) => s.app == app && s.layout == layout && s.reach == reach,
            None => false,
        };
        if !same {
            self.state = Some(ForegroundState { app, layout, reach });
        }
        !same
    }
}

} // verus!
