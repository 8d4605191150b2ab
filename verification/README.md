# ratatoskr

A terminal organiser: todo lists, notes, a journal, a calendar, a ledger with
currency conversion, and a pomodoro clock, all kept in a MySQL database.

The crate is split in two.

- `src/` is the library, verified with Verus. It holds the data model (tasks,
  tags, colours, frequencies, durations, amounts, dates as day numbers), the
  tag tree, the text editor and its rope, and every key and mouse handler as a
  function from state and event to new state and an effect for the caller to
  carry out. Each public function states its result in its contract (a handler
  that reads the clock or draws an identifier states it up to those two values,
  and its `_at` twin, which takes them, states it exactly), and the
  laws that tie operations together (focus cycles, round trips, undo of a
  bump, month shifts that compose, display orders that are permutations, and
  so on) stand as public proof functions beside the code they speak of.
- `app/` is the program around it: terminal set-up and drawing with ratatui,
  the event loop, the database, settings files, exchange-rate fetching and
  desktop notifications. It performs the effects that the library returns.

`tests/` runs the library on concrete values.
