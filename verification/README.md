# settings_lib

A configurator for a Discord rich presence: a settings document, the rules by which a
settings editor reads what was typed, and the activity that a background runner shows.

- `src/` is the verified library (Verus). `settings` holds the settings document and its
  constructors; `timestamp` computes the start and end of the time counter; `activity`
  derives the activity to send; `gui` and `dropdown` hold the editor's decisions; `text`
  holds the string predicates, parsing and decimal formatting they rest on; `launch` and
  `req` name the runner process and the asset addresses.
- `app/` is the program around it: file and network I/O, the Discord IPC client, process
  control and the egui/eframe window. Run it with no argument for the presence runner, with
  `gui` for the editor.
- `tests/` exercises the library on concrete values.
