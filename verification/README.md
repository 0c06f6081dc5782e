# bubbletea_widgets

Terminal UI widgets for bubbletea-style programs — key bindings, a paginator, lists
with fuzzy filtering, a table, a help view, a file picker, a spinner, a stopwatch, a
text cursor and a text sanitizer — with their behaviour stated as Verus contracts and
proved.

- `src/` is the verified library. Each widget's state changes are specified over a
  mathematical view of its state; laws that relate several operations are public proof
  functions (their names start with `law_`). Calls into `lipgloss`, `lipgloss_extras`,
  `fuzzy-matcher` and `bubbletea-rs` go through small trusted wrappers, each documented
  with what it claims.
- `app/` holds what the library leaves to its caller: crossterm key conversion,
  bubbletea commands for the messages the widgets schedule, reading directories for
  the file picker, and the parts computed in floating point (the animated progress bar,
  elapsed-time and file-size formatting).
- `tests/` exercises the library on concrete values.
