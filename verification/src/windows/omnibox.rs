//! Whether the focused element is a Chromium address bar.
//!
//! The question is answered off the keystroke path (a UI Automation read on a
//! worker); the keystroke path only reads the stored answer. Every focus change
//! clears the answer before the worker re-resolves it, so a stale answer can
//! only ever be "not the address bar": the guard then fails to fire (a visible
//! mis-render) and never fires in a page body (a character silently lost).
use vstd::prelude::*;

verus! {

/// Chromium's own class name for the omnibox text field, the one
/// discriminator the worker compares the focused element's class against.
pub const OMNIBOX_CLASS: &'static str = "OmniboxViewViews";

/// The address-bar answer the keystroke path reads.
pub struct OmniboxFocus {
    focus_is_omnibox: bool,
}

impl OmniboxFocus {
    /// Whether the stored answer says the address bar has focus.
    pub closed spec fn spec_focus_is_omnibox(&self) -> bool {
        self.focus_is_omnibox
    }

    /// The state at startup: nothing has focused an address bar.
    pub fn new() -> (r: Self)
        ensures
            !r.spec_focus_is_omnibox(),
    {
        OmniboxFocus { focus_is_omnibox: false }
    }

    /// Whether the element with keyboard focus is a Chromium address bar.
    pub fn focus_is_omnibox(&self) -> (r: bool)
        ensures
            r == self.spec_focus_is_omnibox(),
    {
        self.focus_is_omnibox
    }

    /// Focus moved: the stored answer is cleared before anything can read it,
    /// so the only stale answer is the safe one.
    pub fn note_focus_changed(&mut self)
        ensures
            !final(self).spec_focus_is_omnibox(),
    {
        self.focus_is_omnibox = false;
    }

    /// The worker's answer for the newly focused element, given its class name
    /// (`None` when it could not be read). Only the omnibox class sets it.
    pub fn resolved(&mut self, class: Option<&str>)
        ensures
            final(self).spec_focus_is_omnibox() == (class is Some && class.unwrap()@ == OMNIBOX_CLASS@),
    {
        self.focus_is_omnibox = match class {
            Some(c) => crate::text::str_eq(c, OMNIBOX_CLASS),
            None => false,
        };
    }
}

} // verus!
