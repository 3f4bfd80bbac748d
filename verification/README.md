# dsh_desktop

A Windows desktop shell around DeepSeek Harness (`dsh`): it runs dsh's web server and a LAN
forwarder, installs and updates dsh's runtime, and chimes when sessions finish.

`src/` is the library, verified with Verus. It holds the shell's decisions:

- `dsh`: which processes to start and stop (`DshManager`), the LAN address, the forwarder's
  access token, the child processes' arguments and environment.
- `cert`: the steps that keep the forwarder's certificate one for the current LAN address.
- `runtime`: the steps that download the runtime archive and swap it in, with rollback.
- `updater`: version comparison (semantic versions, else text), the update's self-check, and
  the steps of an update (stop dsh, replace the runtime, start dsh again).
- `notify`, `json`: parsing and reading dsh's session list and `package.json`, and deciding
  when to chime.
- `poll`, `tray`, `text`: waits, dialog texts, and text helpers (decimal, trim, prefixes).

`app/` carries those decisions out with Tauri, the file system and child processes.
`tests/` runs the library on concrete values.
