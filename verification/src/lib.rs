//! taskboard — the verified core of a feature-dense terminal task manager:
//! tabs, a filtered list, a kanban board, a detail pane, a modal dialog, a
//! progress run and a text input, driven by key, mouse, paste and focus
//! events.
//!
//! - `model`: tabs, modes, tasks, lanes, keys, events and effects.
//! - `state`: the mathematical model of the board and of every transition.
//! - `app`: the board itself, each operation proved against `state`.
//! - `ui`: what the renderer computes before it draws.
//! - `escape`: base64, palette, effect, cursor and hyperlink sequences; the
//!   `DECRQM` reply, the command line and exit codes.
//! - `text`: decimal rendering, substring search and character helpers.
//! - `laws`: properties that span operations or hold of every state.

pub mod app;
pub mod escape;
pub mod laws;
pub mod model;
pub mod state;
pub mod text;
pub mod ui;
