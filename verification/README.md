# dogwatch

Dogwatch watches the open GitHub pull requests of the signed-in user, matches them to
running Drydock runs, writes CI and review state back to Drydock, nudges coding agents
whose pull requests fail, and notifies Telegram when a pull request is ready for review.

The decisions are a verified library (`src/`, checked by Verus):

- `decision`: what to do about one pull request, and the order in which pull requests are
  handled (the priority organisation first during South African working hours).
- `cycle`: a check cycle as plans of effects (Drydock writes, notifications, nudges, log
  rows, stale-run bookkeeping), with the dry-run, retry-limit and stale-run laws.
- `check_cycle`: a whole check cycle as a state machine, stepped by what the outside work
  brought back; it fixes the order of the cycle (pause checks, then every pull request's
  state, then the matched pull requests, then the stale runs).
- `github`, `notifications`, `agent`, `drydock`, `config`, `logging`, `models`, `clock`,
  `text`, `cli`: the commands, messages, URLs, paths and states those plans are made of.

`app/` is the program around it: command-line parsing, configuration files, HTTP, SQLite,
and the `gh`, `acpx` and `openclaw` processes. It steps the check cycle, carries out the
effects that the library plans, in order, and fetches what each step asks for.
