# flow

A terminal task manager: `flow task add|toggle|delete|list` on the command line, or an
interactive dashboard with tabs, a task list and an add-task popup when run without arguments.
Tasks are kept in `tasks.json`.

- `src/` is the verified library (Verus): the task store (`task`), the dashboard state and its
  transitions (`app`), the key map (`keys`), the task subcommands (`cli`), what the screens show
  (`view`, `layout`), text trimming (`text`), the clock (`clock`) and the cross-cutting
  properties (`laws`).
- `app/` is the program around it: argument parsing with clap, JSON storage with serde, the
  terminal with crossterm and the drawing with ratatui.
- `tests/` runs the library on concrete values.
