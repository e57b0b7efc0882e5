# byte

A terminal workspace manager for projects: it discovers projects under
workspace directories, shows their git and build state, runs their commands,
keeps command logs, and scaffolds new projects.

## Layout

- `src/` — the library, verified with Verus. Each public function states in
  its contract what it returns or changes; the laws that span several
  functions are public proof functions named `law_*`.
  - `path` — user paths: tilde expansion, remote-path refusal, safe joining.
  - `config` — the global configuration and its workspace list.
  - `projects` — project names, discovery roots, git initialisation.
  - `fs` — project scaffolding plans and command-log bookkeeping.
  - `exec` — command validation and command building.
  - `forms` — form fields and their key handling.
  - `state` — parsed git status and build state.
  - `log`, `logger` — log lines, log file names, command categories.
  - `cli` — the command-line commands and their reports.
  - `tui` — the application state machine (`AppState::handle_key`), command
    lists, workspace counts, fuzzy path completion, and the text of each
    view and list (`render`, `screens`), and the pacing of its loop.
- `app/` — the program around the library: terminal, files, processes,
  clap/serde/toml types, file watching and the fuzzy picker.
- `tests/` — tests of the library on concrete values.
