# OpenCode Forger

A command-line tool that scaffolds autonomous coding projects for OpenCode:
it builds a project specification (generated by a model, filled in by hand,
taken from a file or a template), validates it, and writes the project's
files.

## Layout

- `src/` — the library, verified with Verus. It holds the decisions of the
  program: specification validation and sanitizing, prompt building and the
  generation retry loop, scaffolding plans (every directory and file with
  its exact content), templates, the state machines of the interactive
  screens, database query rules and result tables, regression reports, and
  the terminal protocol's names and payloads. Contracts state each result
  exactly; laws (public proof functions) state what holds across calls.
- `tests/` — tests of the library on concrete values.
- `app/` — the program around the library: command line, terminal, files,
  SQLite, the OpenCode process, the web dashboard and self-update. It asks
  the library what to do and carries it out.
