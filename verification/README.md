# glowkey

The platform-side decisions behind GlowKey, a Vietnamese input method for
macOS and Windows, written in Verus and proved against their contracts: the
settings and their merge, the ignore list, the tray and menu-bar state, the
key batches the hook injects, the settings window's editing rules. The
per-keystroke Vietnamese engine is a separate project and is not part of this
crate. `app/` holds the settings and log files; the event taps, windows and
tray that would drive these decisions are not included.

- `src/settings.rs` — the preferences value, its model, and the three-way merge
  that applies a settings window's edits over what the session learned.
- `src/exclusion.rs`, `src/order.rs` — the ignore list: saved ids merged with
  a platform's shipped defaults, tombstones for removed defaults, both kept in
  order.
- `src/session.rs` — a typing session: mode, application in front,
  session-only enabling of terminals, macros and personal words.
- `src/editing.rs`, `src/macro_import.rs` — the settings windows' editing and
  import rules.
- `src/default_exclusions/` — the shipped application tables per platform.
- `src/macos/` — the event tap's settings surface, hotkey recording, the work
  it defers while a key is decided, the menu bar's glyph and menu, key codes.
- `src/windows/` — the tray's indicator, menu and tooltip, injected key
  batches, the foreground cache, the hook's state and how it carries out a
  decision, the settings window and UI
  thread, key translation, theme and start-up values.
- `src/log.rs`, `src/text.rs` — log lines and rotation; UTF-16, case and
  white space.
- `app/` — the settings and log files.
- `tests/` — behaviour on concrete values.
