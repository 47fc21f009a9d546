# todo_rust

A to-do list for the terminal whose logic is verified with Verus.

- `src/` is the verified library. `model` says what the list holds and what each action makes of
  it; `app` does it; `screen` says what is drawn and where, in the terms of `paint` and
  `geometry`; `storage` says where tasks are kept and how they are removed; `laws` states what
  holds of the list as a whole.
- `app/` is the program around it: the terminal, the file with the tasks, and the widgets.
- `tests/` runs the library on given keys, lists and screens.
