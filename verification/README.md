# nur

`nur` is a task runner for nushell: tasks live in a `nurfile` (or
`nurfile.nu`) at the root of a project, local additions in `nurfile.local`
(or `nurfile.local.nu`), and nur's own configuration in `.nur/`.

This crate is the verified core of nur, written in Verus:

- `src/path.rs` finds the project of a call (the nearest directory, from the
  working directory upwards, that holds a task file) and its task files.
- `src/state.rs` derives the task file names (default or from `--nurfile`)
  and builds the state of a call with its configuration paths.
- `src/session.rs` decides what a call does: help, task listing, dotenv
  loading, the command line to run and how, the errors it is answered with,
  and the line that reports how a run ended.
- `src/errors.rs` holds nur's errors and their messages.
- `src/listing.rs` sorts directory entries in the order of `String`.
- `src/text.rs` holds the text helpers (suffixes, joining, decimal numbers).

`app/` is the program around it: reading the working directory and
directories, talking to the nushell engine and serving nur as a plugin.
