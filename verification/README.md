# test-reporter

Decides what a test runner shows about a run: a line for each test and setup script, captured output,
a summary at the end, and a progress bar.

- `src/` is the library. It is verified with Verus: for every event, the contracts state the exact
  bytes that are written and how the state of the reporter changes. `src/laws.rs` states what holds of
  reports as a whole.
- `tests/` runs the library on concrete events.
- `app/` puts the library on a terminal: it owns standard error and the progress bar, reads settings
  from configuration files, and renders times.
