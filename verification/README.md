# ctxguard

Token accounting for AI coding-agent sessions, and a budget guard for live
runs, as a Verus-verified library (`src/`) with a thin command-line program
around it (`app/`).

- `session` — the per-session summary, its totals, duration and report text.
- `session_log` — reading a JSONL session log into a summary.
- `json` — JSON values as plain data, parsed with `serde_json`.
- `budget` — the guard that fires once when a budget is reached.
- `discovery` — which files are session logs, the time window, the newest file.
- `table` — rows of the sessions table and the totals of its closing line.
- `token`, `text` — unit choice for compact counts, and string helpers.

`app/main.rs` parses arguments, walks directories, reads files, watches the
session log, runs the child process and prints.
