//! The macOS backend's decisions: the event tap's settings surface.
pub mod adapt;
pub mod menu_bar;
pub mod port;
pub mod prefs;
pub mod tap_state;
