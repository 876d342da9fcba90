//! The UI thread's side of the windows: which are open, and what a command
//! from the main thread does to them. One window of each kind at most; a
//! second request brings the open one to the front.
use vstd::prelude::*;

use crate::default_exclusions::Platform;
use crate::settings::Settings;
use super::settings_window::SettingsApp;

verus! {

/// Something the main thread asks the UI thread to do.
pub enum UiCommand {
    /// Open Settings on this snapshot of the session, or bring it to front.
    OpenSettings(Settings),
    /// Open About, or bring it to front.
    OpenAbout,
}

/// Asks for Settings on `snapshot`.
pub fn open_settings(snapshot: Settings) -> (r: UiCommand)
    ensures
        r matches UiCommand::OpenSettings(s) && s@ == snapshot@,
{
    UiCommand::OpenSettings(snapshot)
}

/// Asks for About.
pub fn open_about() -> (r: UiCommand)
    ensures
        r is OpenAbout,
{
    UiCommand::OpenAbout
}

/// What the UI thread does about a command.
#[derive(Clone, Copy, Debug, PartialEq, Eq, Structural)]
pub enum UiAction {
    /// A window was opened.
    Opened,
    /// The window was already open and is brought to the front.
    Focus,
}

/// The open windows.
pub struct UiHost {
    settings: Option<SettingsApp>,
    about_open: bool,
}

impl UiHost {
    /// Whether a settings window is open.
    pub closed spec fn spec_settings_open(&self) -> bool {
        self.settings is Some
    }

    /// The open settings window.
    pub closed spec fn spec_window(&self) -> SettingsApp
        recommends
            self.spec_settings_open(),
    {
        self.settings.unwrap()
    }

    /// Whether the About window is open.
    pub closed spec fn spec_about_open(&self) -> bool {
        self.about_open
    }

    /// No window open.
    pub fn new() -> (r: Self)
        ensures
            !r.spec_settings_open(),
            !r.spec_about_open(),
    {
        UiHost { settings: None, about_open: false }
    }

    /// Carries out one command: opens the window it names, or focuses it when
    /// it is already open (keeping the open settings window's edits).
    pub fn handle(&mut self, command: UiCommand) -> (r: UiAction)
        ensures
            command is OpenSettings ==> final(self).spec_settings_open()
                && final(self).spec_about_open() == old(self).spec_about_open()
                && (r == UiAction::Focus) == old(self).spec_settings_open(),
            !old(self).spec_settings_open() ==> (command matches UiCommand::OpenSettings(snapshot) ==> final(self).spec_window().spec_draft() == snapshot@ && final(self).spec_window().spec_result() is None),
            command is OpenSettings && old(self).spec_settings_open() ==> final(self).spec_window() == old(self).spec_window(),
            command is OpenAbout ==> final(self).spec_about_open()
                && final(self).spec_settings_open() == old(self).spec_settings_open()
                && (r == UiAction::Focus) == old(self).spec_about_open(),
    {
        match command {
            UiCommand::OpenSettings(snapshot) => {
                if self.settings.is_some() {
                    UiAction::Focus
                } else {
                    self.settings = Some(SettingsApp::new(snapshot, Platform::Windows));
                    UiAction::Opened
                }
            },
            UiCommand::OpenAbout => {
                if self.about_open {
                    UiAction::Focus
                } else {
                    self.about_open = true;
                    UiAction::Opened
                }
            },
        }
    }

    /// The open settings window, for drawing and editing.
    pub fn settings_window(&mut self) -> (r: Option<&mut SettingsApp>)
        ensures
            (r is Some) == old(self).spec_settings_open(),
            final(self).spec_settings_open() == old(self).spec_settings_open(),
            final(self).spec_about_open() == old(self).spec_about_open(),
    {
        match &mut self.settings {
            Some(app) => Some(app),
            None => None,
        }
    }

    /// After a frame: a settings window that has decided is released, and its
    /// baseline and result are handed on for the main thread to apply.
    pub fn release_decided(&mut self) -> (r: Option<(Settings, Option<Settings>)>)
        ensures
            old(self).spec_settings_open() && old(self).spec_window().spec_result() is Some ==> r is Some
                && r.unwrap().0@ == old(self).spec_window().spec_baseline()
                && match (r.unwrap().1, old(self).spec_window().spec_result().unwrap()) {
                    (Some(s), Some(m)) => s@ == m,
                    (None, None) => true,
                    _ => false,
                },
            old(self).spec_settings_open() && old(self).spec_window().spec_result() is None ==> r is None,
            r is Some ==> !final(self).spec_settings_open(),
            r is None ==> final(self).spec_settings_open() == old(self).spec_settings_open(),
            !old(self).spec_settings_open() ==> r is None,
            final(self).spec_about_open() == old(self).spec_about_open(),
    {
        let decided = match &mut self.settings {
            Some(app) => match app.take_result() {
                Some(outcome) => Some((app.baseline(), outcome)),
                None => None,
            },
            None => None,
        };
        if decided.is_some() {
            self.settings = None;
        }
        decided
    }

    /// The About window was closed.
    pub fn about_closed(&mut self)
        ensures
            !final(self).spec_about_open(),
            final(self).spec_settings_open() == old(self).spec_settings_open(),
    {
        self.about_open = false;
    }
}

} // verus!
