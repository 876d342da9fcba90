//! The engine's key vocabulary, shared by both platforms' adapters: which
//! key an event is, which modifiers are held, and the event as a whole.
use vstd::prelude::*;

verus! {

/// A key in the engine's vocabulary.
#[derive(Clone, Copy, Debug, PartialEq, Eq, Structural)]
pub enum Key {
    Backspace,
    ForwardDelete,
    Escape,
    Space,
    Return,
    Tab,
    /// Anything that moves the caret without changing text.
    CaretMove,
    /// A letter key, lowercased.
    Letter(char),
    Other,
}

/// The modifiers the engine is told about.
#[derive(Clone, Copy, Debug, PartialEq, Eq, Structural)]
pub struct Modifiers {
    pub control: bool,
    pub shift: bool,
    /// Alt.
    pub option: bool,
    /// The Windows key: the system's own shortcut modifier.
    pub command: bool,
}

impl Default for Modifiers {
    fn default() -> (r: Self)
        ensures
            r == (Modifiers { control: false, shift: false, option: false, command: false }),
    {
        Modifiers { control: false, shift: false, option: false, command: false }
    }
}

impl Modifiers {
    /// Whether these make the key a shortcut (which flushes the word).
    pub fn is_shortcut(&self) -> (r: bool)
        ensures
            r == (self.control || self.option || self.command),
    {
        self.control || self.option || self.command
    }
}

/// One key-down, in the engine's terms.
#[derive(Clone, Copy, Debug, PartialEq, Eq, Structural)]
pub struct KeyEvent {
    /// The character the key typed under the current layout, if any.
    pub ch: Option<char>,
    pub key: Key,
    pub mods: Modifiers,
    /// The platform's own code for the key, carried so a recorded hotkey can be
    /// recognised again.
    pub raw_code: i64,
}

} // verus!
