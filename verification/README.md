# wally

The logic of a command line that runs AI models on this machine, written in
Verus. Every verified function states what it returns in its `ensures`, and Verus
proves it; only of the random bytes of an event id nothing is said.

- `src/` is the library: the commands and their options, what each of them
  prints, the state machines of their work, paths, preferences, the profile of a
  desktop app, usage reports, calendar and money.
- `src/document.rs` holds the calls into `serde_json`; with the random bytes of
  `cmd_telemetry.rs` and the two text functions of `text.rs` they are all that
  the proofs take on trust.
- `app/` is ordinary Rust around it: the terminal, files, the machine, and the
  loops that perform the work which the state machines ask for, from the command
  that was typed to its exit code. Whoever links it against the engine implements
  its traits. Numbers in floating point are computed and formatted there; the
  library carries them as bits.
- `tests/` runs the library on concrete values.

The editors that wally opens are called after one word, which a build is told by
`WALLY_EDITOR_WORD`. A build that is not told it has every command but those that
open an editor.
