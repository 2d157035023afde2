# xivtools

Helpers for Final Fantasy XIV: a crafting assistant (`talan`), a retainer
venture assistant (`ventures`) and a command-line crafter (`craft`).

The library in `src/` holds the logic, each function with a contract proved
by Verus:

- `text` – text handling with std semantics (trimming, lines, splitting,
  number parsing and printing).
- `input` – the keys and input steps sent to the game.
- `xiv` – jobs, cities, the game window's title, the structures read from
  the game's memory and the UI input plans.
- `xivapi` – recipes as XIVApi describes them and the order the game lists
  them in.
- `garland` – items and materials as Garland Tools describes them, and the
  search address.
- `process` – process and memory errors, signatures, unknown fields.
- `talan` – macros, actions, recipes, tasks, item lists, role actions, the
  crafting engine's steps, the worker's decisions and the window's rules.
- `ventures` – reassigning retainers and finding the next venture to end.
- `cli` – the command-line crafter's macros, role actions and input plans.

The programs in `app/` read files, talk to the web services, find the game
window and carry out the planned input; `tests/` runs the library on
concrete values.
