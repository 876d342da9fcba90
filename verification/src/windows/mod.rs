//! The Windows backend's decisions: what the tray shows, what an injected
//! edit is made of, what the foreground cache answers, and the small rules
//! around them. The Win32 calls that feed these stay at the edge.
pub mod about;
pub mod adapt;
pub mod clipboard;
pub mod elevation;
pub mod foreground;
pub mod hook;
pub mod hook_log;
pub mod indicator;
pub mod mouse;
pub mod inject;
pub mod omnibox;
pub mod settings_window;
pub mod shell;
pub mod startup;
pub mod theme;
pub mod tray;
pub mod ui_thread;
