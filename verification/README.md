# GitHub Stars Pocket (`gsp`), verified core

A terminal application for browsing, searching and categorising the repositories
a GitHub user has starred. The decisions it takes are written in Verus and proved
against their contracts; the terminal, HTTP, SQLite and clock stay in a thin
front end.

## Layout

- `src/` — the verified library
  - `app.rs` — the terminal application's state machine: every key handler
    (AI search and the editing of settings included), the start-up choice,
    device-flow polling, background and foreground sync, and the sync log; with
    its laws (typing then erasing a search character restores the query,
    toggling a setting twice restores it, selections stay in range, an AI
    search starts only with credentials, …)
  - `config.rs` — the settings and their key/value rows, with the proof that
    reading back the stored rows gives the same settings
  - `auth.rs` — the OAuth Device Flow forms and how GitHub's replies are read
  - `api.rs` — the starred-repository API: URLs, the `Link` header, and the
    page-by-page gathering of repositories
  - `classifier.rs` — categories by language and topics
  - `storage.rs` — stored rows, the search pattern, and ordering rows by a
    ranked list of names
  - `ai.rs` — the chat request for natural-language search and reading its reply
  - `gui.rs` — the desktop interface's state and what each control does
  - `ui.rs` — star counts, centred rectangles, shortened secrets, the AI
    endpoint shown in the settings, and what the AI search screen shows
  - `events.rs` — key events as plain values
  - `text.rs` — string helpers with specifications over `Seq<char>`
- `tests/` — tests of the library on concrete values
- `app/` — the terminal program: settings and store on disk (rusqlite, toml,
  dirs), GitHub over HTTP (reqwest), the event loop (tokio, crossterm) and the
  screens (ratatui)

## The desktop interface

The project also has a desktop window (built on dioxus). Its state and what each
of its controls, replies and sync steps does stand verified in `src/gui.rs`; the
window itself (its rendering and the tasks that wait for GitHub between those
steps) is not part of this crate: dioxus's desktop backend needs the WebKitGTK
and GTK 3 system libraries, which this build does not have, so `app/` is the
terminal program only.
