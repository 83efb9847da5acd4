# winsched_logic

The decisions of WinSched, a controller that places the processes of a Windows
machine on the cores that share a last-level cache, and that lowers the
resources of background processes while they are in the background.

- `src/` is the library. Every rule in it carries a contract that Verus proves:
  the loop of the controller, the evaluation of the background policies and
  their journals, the placement of processes, the event log, the registration
  of the service and its rollback, and the models of the tray, of the process
  monitor and of the settings window.
- `tests/` runs the library on concrete values.
- `app/` holds the programs around the library: the service, the tray, the
  process monitor and the settings window. They read files, call Windows, draw
  windows and hand the library plain values. Besides the crates in
  `Cargo.toml` they are linked, on Windows, with the `windows` crate and with
  the platform, configuration, policy and control crates of WinSched.

The functions that the library takes from other crates stand behind wrappers
whose contracts are believed: the decoder of the tray icon (`src/icon.rs`), the
reading of the output of `sc.exe` as text (`src/sc_output.rs`), and `push` of
`String` (`src/text.rs`).
