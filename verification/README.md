# fenster

A display-configuration daemon for wlroots compositors. The daemon binds the
`zwlr_output_manager_v1` global, keeps a picture of the output heads and
their modes as the compositor announces them, and serves requests on a Unix
control socket, one JSON message per line.

Layout:

- `src/` — the verified library (Verus):
  - `ipc` — the messages and responses of the control socket, the detail
    of each decoding error, and the framing of a response line;
  - `output` — one output head and its modes, and what each head or mode
    event does to them;
  - `state` — all known heads, the manager and its serial, and the
    handling of manager, head and mode events, with the laws that tie them
    together;
  - `log_level` — the log level that the command line asks for;
  - `paths` — where the control socket lives;
  - `session` — the decisions taken while serving clients and while
    waiting for the compositor;
  - `window` — the settings window's root view.
- `app/` — the daemon program: the Wayland connection and dispatch impls,
  the socket listener, and the JSON copies of the message types.
- `tests/` — tests of the library.
