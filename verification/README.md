# xareon

The backend of the Xareon game journal: games, genres, journal entries,
achievements, play-time tracking (manual and automatic) and profile sync
through a shared folder.

- `src/` is the library, verified with Verus: the domain values, the
  validation rules, the game browser's `WHERE`/`ORDER BY` builder, achievement
  progress, settings storage, the automatic tracking state machine, migration
  planning and the profile sync status. Every public function states its result
  in its contract; the `lemma_*` proof functions state the laws that span calls.
- `app/` is the plain Rust around it: SQLite repositories, services, profile
  files on disk, and the polling loop that feeds the tracker.
- `tests/` runs the library on concrete values.
