# ptd_launcher

The verified core of the PTD Launcher, a desktop launcher that downloads the
Pokémon Tower Defense games, the Flash Player projector and Ruffle, keeps track
of installed versions, checks for game updates and starts games.

- `src/` is the library, written and proved with Verus: the configuration
  model and its defaults, where files live, version extraction from download
  URLs, update decisions, download bookkeeping, the choice of Ruffle nightly
  and archive format, finding games on disk and building launch commands.
- `app/` is the Tauri application around it: environment lookups, file and
  network I/O, JSON (de)serialization, archive extraction, process spawning and
  the progress-bar percentage (floating point).
- `tests/` exercises the library on concrete values.
