# keisen

A floating palette of box-drawing characters for Windows: click `├`, `│`,
`└` … and the character is typed into the editor that was last in front.
The window stays on top, lives in the system tray, and its close button
hides it instead of quitting.

## Layout

- `src/` — the verified library (Verus):
  - `text.rs` — decimal, hexadecimal and boolean text, stated over `Seq<char>`.
  - `input.rs` — UTF-16 encoding of the typed text, the key-down/key-up pair
    per unit, the typing target and how to focus it.
  - `win_ctl.rs` — the window's show/hide/quit state and the action each
    operation asks for; laws on toggling and quitting.
  - `single_instance.rs` — the single-instance decision and wide strings.
  - `pump_keepalive.rs` — the keepalive state machine and its heartbeat lines.
  - `debug_log.rs` — the debug log (on in debug builds, off in release).
  - `chars.rs` — the palette sections and their characters.
  - `ui.rs` — per-frame closing decisions, font family order, status and
    tooltip texts.
  - `icon.rs` — the application and tray icons, decoded and resampled with
    the `image` crate.
- `tests/` — tests of the library.
- `app/` — the program: Win32 calls, the tray icon, the egui window, the
  keepalive thread and the log file.

The program expects `assets/icon.png` beside the executable.
