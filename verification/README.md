# alarm-core

The core of Aurora Alarm, a Linux alarm clock with a session daemon, a
GTK/libadwaita window and a tray icon, written in Verus.

- `src/` is the verified library:
  - `time.rs`: times of day, wall-clock times and instants as plain values,
    and the `chrono` and time-zone calls behind contracts;
  - `api.rs`: the daemon's D-Bus names;
  - `model.rs`: alarms, drafts, states, status, settings, identifiers;
  - `schedule.rs`: when an alarm rings next (`next_occurrence_after`);
  - `engine.rs`: the daemon's decisions (schedule upkeep, scheduler ticks,
    ringing, dismissing, snoozing, toggling, editing, status);
  - `seed.rs`: what an empty database is filled with;
  - `presentation.rs`, `sorting.rs`, `text.rs`: what the window and the tray show;
  - `laws.rs`: properties relating several operations.
- `app/` runs it: the D-Bus daemon with its SQLite store, notifications and
  tone, and the window with its tray icon (`--window`).
- `tests/` exercises the library on concrete values.
