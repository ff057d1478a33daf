# gba_core

The verified core of `gba`, a git-based coding agent: it prepares a repository
(`gba init`), plans a feature in a dialogue with the agent (`gba plan`), and
implements the plan phase by phase, with review, verification and a pull request
(`gba run`).

## Layout

- `src/` is the library, written in Verus and verified: configuration and workspace
  paths, feature numbering, tool presets, prompt identifiers and contexts, the parsing
  of design specifications into phases, the reading of review and verification
  replies, the sequence of git commands of a commit, the events and their display, and
  the state of the planning screen (key handling, scrolling, messages), the order of
  the `init` and `run` workflows, and the prompt templates (the choice between a
  default and an override, and rendering through MiniJinja).
- `tests/` runs the library on concrete values.
- `app/` is the command-line program around it: argument parsing, configuration files
  (YAML), reading template overrides and holding the default templates, agent
  sessions, running processes, the terminal screen.
  It hands plain values to the library and carries out what the library decides.

The library runs no process and touches no file: where an operation needs the outside
world, it returns what to do (a command to run, an event to show) or takes what came
back as an argument.
