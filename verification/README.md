# rust_screenshot

A desktop screenshot tool: capture a display, annotate the picture with
shapes, free-hand lines and text, crop it, and save it or copy it to the
clipboard. Keyboard shortcuts for the main actions can be changed in a
settings window.

- `src/` is the library, verified with Verus: the shortcut bindings and the
  flow that edits them (`shortcuts`, `settings`), the editor's state machine and
  the per-frame drawing decisions (`editor`), the names of saved files
  (`files`: the time stamp's shape comes from chrono's documented format, its
  value from the clock) and the display list (`screens`).
- `app/` is the program around it: a capture of the displays into `target/`,
  the egui/eframe window, painting, the
  floating-point geometry of figures, file and clipboard I/O, and the
  serialisable copies of the settings.
- `tests/` exercises the library on concrete values.
