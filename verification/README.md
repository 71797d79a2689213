# ripsed

A stream editor in the spirit of sed: literal and regex find/replace over
lines of text, line deletion and insertion, structured diffs, an undo log,
and a JSON request protocol for automated callers.

The library under `src/` is written in Verus. Its functions carry
`requires`/`ensures` contracts over mathematical models (`Seq<char>` for
text, spec functions for the line engine, the undo log and the request
rules), and Verus proves every body against its contract.

- `text` — character-level primitives: `str::lines`-style splitting,
  joining, literal search and replacement, decimal formatting, trimming.
- `operation`, `matcher`, `engine`, `diff`, `case` — the operations, line
  matching, case transforms and the edit engine with its diff and undo
  entry.
- `undo`, `suggestion`, `config`, `error` — the bounded undo log, "did you
  mean" suggestions, configuration defaults, structured errors.
- `request`, `response`, `schema`, `detect` — the JSON protocol's rules.
- `paths`, `lock`, `writer`, `reader`, `discovery` — naming of lock and
  backup files, lock back-off, input limits, binary detection, discovery
  options and ignore filtering.
- `cli`, `step`, `script` — the decisions of the command-line front end, of one
  file of a file-mode, script or JSON run (which changes are written,
  backed up and recorded), and the `.rip` script format.
- `laws` — properties that span several functions, stated and proved.

Calls into `regex`, `strsim`, `serde_json`, `ignore` and a few `std`
functions go through small trusted wrappers whose contracts name or state
what those functions return.

`app/` is the command-line program around the library: argument parsing,
file and terminal I/O, serialization, and file discovery. `tests/` holds the
test suite.
