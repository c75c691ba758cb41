# ssh_connections

Saved SSH connection presets and the decisions of the panel that lists, adds,
edits, deletes and launches them.

- `src/text.rs`: trimming white space, rendering and reading port numbers.
- `src/settings.rs`: the preset, its `ssh` command line and list texts, and the
  saved list with its save, delete and look-up operations and their laws.
- `src/ids.rs`: new preset ids, random version-4 UUIDs from the `uuid` crate.
- `src/panel.rs`: the panel's state and `step`, which gives for each action the
  next state and the effects the application carries out.
- `app/`: the panel inside the application (settings storage, editors,
  rendering, telemetry), which runs the library's effects.
