# Naphwiki Timeline — verified core

The Naphwiki timeline overlay is a small always-on-top desktop strip that shows
the live Naphwiki event timeline. This crate holds its decisions and data,
with proved contracts; the desktop shell around them lives in `app/`.

- `src/account.rs` — the login state sent by the page and the account name
  shown in the menu.
- `src/menu.rs` — the native settings menu: entries, labels, enabled and
  checked states, and the command identifiers.
- `src/tracking.rs` — window tracking: which application the overlay follows,
  its offset from that window, the topmost decision, the attach-by-click
  selection, and the settings remembered on disk.
- `src/window.rs` — facts about other windows: which may be followed, the
  executable name of a process, UTF-16 text for native calls.
- `src/sound.rs` — the custom notification sound: accepted formats, access
  rules, validation of stored and picked files.
- `src/startup.rs` — starting with Windows.
- `src/updates.rs` — the version history shown once per version and the update
  dialog flow.
- `src/shell.rs` — how the application's windows react to events.
- `src/text.rs` — character classes and the string operations used above.
- `app/` — the Tauri application: windows, native menu, registry, files,
  threads and Win32 calls.
