# termua

The verified core of the Termua terminal application, written in Verus.

- `src/` is the library: the state of the sidebars and of the queue of
  commands for the main window, the settings sections with their defaults and
  the rules by which a settings file patches them, font-feature (ligature)
  editing, the planning of keybinding overrides, the decisions behind the
  terminal panel's SFTP drag-and-drop upload, and the settings paths. Every
  function has a contract that Verus proves; the laws that span functions are
  public proof functions.
- `tests/` runs the library on concrete values.
- `app/` is the program around it: file and JSON I/O and the windowing
  toolkit, which hand plain values to the library and carry out its answers.
