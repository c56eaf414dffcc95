# terman_tmux

A tmux-compatible session manager whose logic is verified with Verus.

- `src/` is the library. Every function in it carries a `requires`/`ensures`
  contract that Verus proves: argument parsing, the command table, pane
  layouts and their geometry, the pane state of each window, the session
  state shared by attached clients, the request handlers of a session
  server, the key, mouse and prompt state machines of an attached client, copy mode, the session record, and the
  messages shown to the user. `src/laws.rs` states properties that span
  several operations.
- `app/` is the program around it: clap for the command line, serde for the
  JSON wire format and the session record, interprocess for the local
  sockets, portable-pty for the shells, crossterm for the attached terminal.
  It performs the effects the library decides on.
- `tests/` exercises the library on concrete values.

Copy mode moves a cursor over the captured output, selects between an
anchor and the cursor, and copies the selection. It has no text search:
keys that a search would consume act as plain copy-mode keys, and the
status row shows no search state.

`set-window-option` and `refresh-client` are not implemented:
both are answered as unsupported commands.
