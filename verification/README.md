# fellowship

A terminal UI for working with several git worktrees side by side, with a
team of agents (PM, Architect, Recon and engineers) each in its own PTY:
workspaces on the left, the terminal of the active workspace or member in
the middle, git status (or the bead board and agent journal) on the right.

## Layout

- `src/` — the library, verified with Verus: the key map and input modes,
  pane navigation, the application state machine (`app.rs`: every event's
  effect on the state, and the work handed back as `Effect`s), the
  watchdog and engineer-pool policy, the orchestrator's routing, the
  `git`/`gh` guard policy, and the parsers and path computations for git
  output, runtime files and configuration.
- `app/` — the program around it: the tokio event loop that performs the
  effects, PTYs, drawing with ratatui, the runtime-directory watcher, the
  `fellowship-ctl` helper CLI and the guard shim (selected by the name the
  binary is invoked under).
- `tests/` — tests of the library.

## Agent CLI

Members run the agent command-line program named by `FELLOWSHIP_AGENT_CLI`;
`FELLOWSHIP_RECON_MODEL`, when set, is the model the Recon role runs with.
When the program does not answer `--version`, member terminals show a banner
and a plain shell instead.
