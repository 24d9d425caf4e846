# bs_utility

The decision logic of a desktop utility that backs a folder up on a timer,
keeping a fixed number of rotating backups, takes named snapshots of it, and
saves and loads its settings as profiles.

- `src/` is the verified library:
  - `text.rs`: text comparison, white space trimming, decimal rendering;
  - `error.rs`: the refusals and their messages;
  - `state.rs`: the application state, the commands that change it,
    profiles and the start-up configuration;
  - `backup.rs`: the rotating backup schedule as a state machine;
  - `laws.rs`: properties proved across those operations.
- `app/` is the Tauri shell: dialogs, file copies, profile files (TOML),
  timers and the commands the front end invokes.
- `tests/` runs the library on concrete values.
