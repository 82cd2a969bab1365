# clash_tui

The logic of a terminal client for the Mihomo proxy core, and of the build
tasks that package it, written in Verus: every function in `src/` carries a
contract and is proved against it.

- `src/` — the library: key handling and the client state machine
  (`keys`, `dispatch`, `commands`, `events`, `outcomes`), selection and
  refresh rules (`selection`, `proxy_select`, `navigation`,
  `refresh_state`, `panes`), what the screens show (`frame`, `layout`,
  `panels`, `popups`, `modal`, `pages`, `dashboard`, `details`, `logs`,
  `jobs`, `profiles`, `provider_dialog`, `settings`), the controller and runtime
  documents (`controller`, `runtime`, `auto_refresh`, `diagnose`,
  `validation`), text
  handling (`strs`, `text`, `redaction`, `order`), and the build tasks
  (`xtask`, `xtask_args`, `package`, `package_verify`, `manifest`,
  `licenses`).
- `app/` — the build-task program: it runs commands, reads and writes
  files and JSON, and asks the library what to do and what to report.
- `tests/` — tests of the library on concrete values.

Outside calls (URL parsing, display widths, lossy UTF-8 decoding, reading
YAML and JSON documents into the library's own trees) go through a few
trusted wrappers, each documented where it is declared.
