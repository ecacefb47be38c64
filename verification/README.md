# benteveo

Core of a local focus application for Linux: a Pomodoro timer, an ordered
task checklist and a versioned configuration file, written in Verus so that
their behaviour is stated in contracts and proved.

## Layout

- `src/clock.rs` — durations and instants as plain nanosecond counts, the
  reading of the system clock, and a monotonic clock started from it, which
  each timer carries for the operations that take no instant.
- `src/domain/pomodoro.rs` — the timer state machine, its abstract state
  (`TimerView`), the transitions as specification functions, and the laws of
  the timer (invariant kept, paused time not counted, sessions counted only
  for finished work stages, ...).
- `src/domain/task.rs` — the checklist: stable identifiers, renumbering after
  every change, stable sorting of loaded tasks, and its laws.
- `src/config.rs` — the persisted configuration model, its defaults and the
  schema migration.
- `src/services/` — decisions of the noise player, of the configuration store
  (what a load yields, backup and temporary file names, the first free backup
  name) and of the tray menu.
- `src/ui/` — what the views decide: requested actions and labels.
- `src/session.rs` — the application's plain state, restored from and stored
  into the configuration (a paused or running stage comes back paused with
  its remaining seconds; the day's session count only on the same day), with
  the round-trip law, and the texts of the notices the window shows.
- `src/text.rs` — decimal rendering used by messages and labels.
- `app/` — the desktop front end (egui window, audio, notifications, files,
  tray), which performs the I/O and delegates every decision to the library.
- `tests/` — executable tests of the library.
