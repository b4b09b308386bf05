# productivo

A terminal productivity dashboard — habits, todos, calendar, ideas, pomodoro,
stats and subscriptions on one home screen — whose logic is a library verified
with Verus.

## Layout

- `src/` — the verified library. Each module holds a screen's state and a
  `handle_key` that turns a key press into the new state and a `Command`: the
  change to stored data it asks for (`Effect`) and which modules to read again.
  Contracts state what every key does (`*_key_step` spec functions); the public
  `lemma_*` proof functions state laws that span several calls (undo reverses a
  completion, pausing loses no time, the status cycle comes back, …).
  - `date`, `text`: dates as day numbers (read and written through chrono) and
    the text operations the rest relies on.
  - `recur`: the repeat rules of todos (`daily`, `weekly:mon,thu`, `every:3d`)
    and the date of the next occurrence.
  - `habits`, `todos`, `calendar`, `ideas`, `pomodoro`, `stats`, `subs`, `pet`:
    the modules.
  - `app`: the whole dashboard — global keys, focus, zoom, and the dispatch to
    the modules.
  - `config`, `theme`: settings with their defaults and the colour palette.
- `app/` — the program around it: the terminal loop (crossterm, ratatui), the
  SQLite storage (rusqlite) that carries out each `Effect`, reading
  `config.toml` (serde, toml), drawing, and the parts that compute with
  floating point (prices, the ambient animation).
- `tests/` — tests of the library.
