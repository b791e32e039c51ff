# shelx

The core of shelx, a desktop SSH client (terminal, dual-pane files with a
transfer queue, server monitor), as a library whose behaviour is stated in
`requires` / `ensures` contracts and proved with Verus.

## Layout

- `src/domain/` — the entities and their rules: connection configurations,
  groups, host key verdicts, session and transfer state machines.
- `src/application/` — the use cases: the connection tree and credentials,
  settings rules and the settings patch merge, data migration, sessions (the
  session book and the connect parameters), prompts, terminals, monitoring
  arithmetic, SFTP delete walks, update checks, and the transfer engine (the
  task book, the walk of a directory, the preparation and commit steps of an
  attempt, path rules).
- `src/commands/` — how each application error is reported to the front end.
- `src/codec.rs`, `src/text.rs` — text encoding (through `encoding_rs`) and the
  string helpers the contracts are written with.
- `tests/` — scenario tests of the library.
- `app/` — the program around the library: file and network I/O, the async
  runners that perform the actions the library decides, the serde shapes of
  the settings, and the floating-point parts of monitoring.
