# taskboard

The verified core of a feature-dense terminal task manager: tabs, a
filtered task list, a kanban board, a detail pane, a delete confirmation, a
progress run, a filter input, a help overlay, mouse selection and bracketed
paste.

- `src/` is the library. `state.rs` models the board as a mathematical
  value and says what every key, paste, click, wheel notch and run step does
  to it; `app.rs` implements the board and proves each operation against
  that model; `laws.rs` proves what holds across operations (the state
  invariant, Ctrl-C from any mode, drafts that apply only on Enter, the
  lanes partitioning the visible tasks, a run finishing after eleven steps,
  base64's shape and round trip, and more). `ui.rs` computes the layout
  and the text the renderer draws — task rows, the detail pane with its
  concealed secret and link position, the status bar segments, titles,
  counters and selections — and `escape.rs` the escape sequences around
  each frame.
- `app/` is the terminal program: raw mode, the crossterm event source,
  the capability probes, the SIGTERM flag, and the ratatui widgets with
  their colours and the static help text.
- `tests/` drives the library as the terminal would.
