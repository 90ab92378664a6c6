# keystroke_counter

A menu-bar typing counter, verified with Verus.

- `src/` — the verified library: instants as Unix timestamps and the `chrono`
  calls that read the clock and name calendar days (`time`), session statistics
  and their laws (`stats`), key classification and keyboard-event handling
  (`keys`), stored columns and their conversions (`records`), and the decisions
  behind the commands, tray menu and statistics window (`commands`).
- `app/` — the Tauri shell: commands, tray, window, SQLite store (`rusqlite`),
  keyboard hook (`rdev`), macOS accessibility calls, and the floating-point
  typing speeds.
- `tests/` — tests of the library on concrete values.
