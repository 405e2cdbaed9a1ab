# dictation

Verified decision logic of a dictation tool, written in Verus.

- `src/latest_cleanup.rs` owns the most recent AI cleanup result: the insert
  hotkey only ever gets the text of the current dictation.
- `src/coordinator.rs` serialises key events, cancellations and pipeline
  notices: commands wait in line, and one worker asks what to do next.
- `src/lifecycle.rs` decides what each command and each elapsed grace period
  leads to; `src/model.rs` states the same transitions as mathematics.
- `src/shortcut.rs`, `src/timing.rs` and `src/text.rs` read key events, times
  and texts.
- `src/cleanup_laws.rs`, `src/lifecycle_laws.rs` and `src/coordinator_laws.rs`
  prove what holds over several operations or any course of them.

`app/` puts the logic to work: mutexes, a worker thread, a clock, logging and
the actions of a Tauri application. `tests/` runs the library on concrete
values.
