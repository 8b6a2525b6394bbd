# script_picker

A terminal picker: it runs a script with the typed query as its argument,
lists the script's output lines, and prints the line the user chooses (or a
buffer of collected lines) on standard output.

- `src/` is the verified library: the picker's state (`app`), what each key
  does (`events`), when the script is re-run (`schedule`), what the two
  screens show (`screen`), the command line (`cli`), text helpers (`text`), and
  properties that span several operations (`laws`).
- `app/` is the terminal program around it: the terminal, the script process,
  and drawing with ratatui.
- `tests/` runs the library on concrete inputs.
