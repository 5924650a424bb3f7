# BlackArch Hyprland TUI

A terminal interface and command line for browsing, installing, removing and
launching BlackArch tools with `pacman`, `pkexec` and a terminal emulator.

## Layout

- `src/` — the library, verified with Verus: the parsers of `pacman` output,
  the package queries and tool records, the install/remove/run commands and
  their checks, favorites and recent tools, cache and configuration paths,
  the interface state with every change a key press or a worker report makes
  to it, and the texts the screen shows. Contracts are stated over
  mathematical views (`Seq`, `Option`, spec functions); `src/laws/` holds the
  properties that span several functions (favorites read back unchanged,
  stale answers ignored, one package operation at a time, requests issued only
  after their checks, and others).
- `app/` — the program around the library: the terminal loop (crossterm and
  ratatui), the background worker thread, the files and processes it reads and
  runs, and the `clap` command line. It hands the library what the outside
  world gave and carries out what the library returns.
- `tests/` — tests of the library on concrete values.

Trusted rather than proved: the user directories that the `dirs` crate
reports, the wall clock and the monotonic clock, and three string operations
of the standard library (`String::push`, `str::to_lowercase`,
`char::to_uppercase`).

Package search (`search <query>` and the worker's search request) is not
supported: there is no query that lists matching packages, so both answer
"package search is not supported". Filtering the listed tools by the search
field of the interface works as usual.
