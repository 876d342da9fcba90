//! The Settings window's refresh requests. The window is created on first
//! open and reused; the tap asks it to refresh when something it shows changed
//! behind it. Before the window exists a request does nothing.
use vstd::prelude::*;

verus! {

/// The Settings window as the tap sees it: whether it exists, and which of
/// its views are due a refresh.
pub struct PrefsWindow {
    exists: bool,
    words_stale: bool,
    hotkey_stale: bool,
}

impl PrefsWindow {
    /// Whether the window has been created.
    pub closed spec fn spec_exists(&self) -> bool {
        self.exists
    }

    /// Whether the personal-words list must be refreshed.
    pub closed spec fn spec_words_stale(&self) -> bool {
        self.words_stale
    }

    /// Whether the hotkey controls must be refreshed.
    pub closed spec fn spec_hotkey_stale(&self) -> bool {
        self.hotkey_stale
    }

    /// No window yet.
    pub fn new() -> (r: Self)
        ensures
            !r.spec_exists(),
            !r.spec_words_stale(),
            !r.spec_hotkey_stale(),
    {
        PrefsWindow { exists: false, words_stale: false, hotkey_stale: false }
    }

    /// The window was created (it is hidden, not destroyed, on close).
    pub fn created(&mut self)
        ensures
            final(self).spec_exists(),
            final(self).spec_words_stale() == old(self).spec_words_stale(),
            final(self).spec_hotkey_stale() == old(self).spec_hotkey_stale(),
    {
        self.exists = true;
    }

    /// A word was taught or corrected behind the window: its list refreshes,
    /// if there is a window.
    pub fn personal_words_changed(&mut self)
        ensures
            final(self).spec_exists() == old(self).spec_exists(),
            final(self).spec_words_stale() == (old(self).spec_words_stale() || old(self).spec_exists()),
            final(self).spec_hotkey_stale() == old(self).spec_hotkey_stale(),
    {
        if self.exists {
            self.words_stale = true;
        }
    }

    /// A hotkey recording ended (captured or cancelled): the hotkey controls
    /// refresh, if there is a window.
    pub fn hotkey_recording_done(&mut self)
        ensures
            final(self).spec_exists() == old(self).spec_exists(),
            final(self).spec_hotkey_stale() == (old(self).spec_hotkey_stale() || old(self).spec_exists()),
            final(self).spec_words_stale() == old(self).spec_words_stale(),
    {
        if self.exists {
            self.hotkey_stale = true;
        }
    }

    /// The refreshes due (words, hotkey), each once.
    pub fn take_refreshes(&mut self) -> (r: (bool, bool))
        ensures
            r == (old(self).spec_words_stale(), old(self).spec_hotkey_stale()),
            !final(self).spec_words_stale(),
            !final(self).spec_hotkey_stale(),
            final(self).spec_exists() == old(self).spec_exists(),
    {
        let r = (self.words_stale, self.hotkey_stale);
        self.words_stale = false;
        self.hotkey_stale = false;
        r
    }
}

} // verus!
