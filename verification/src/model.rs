//! The board's data: tabs, modes, tasks, lanes, keys, events and the side
//! effects the renderer cannot express, each with its mathematical view.

use vstd::prelude::*;

verus! {

/// Which top-level tab is showing.
#[derive(Debug, Clone, Copy, PartialEq, Eq, Structural)]
pub enum Tab {
    Tasks,
    Board,
    Stats,
    Logs,
}

/// The position of a tab in the tab bar.
pub open spec fn tab_index(t: Tab) -> nat {
    match t {
        Tab::Tasks => 0,
        Tab::Board => 1,
        Tab::Stats => 2,
        Tab::Logs => 3,
    }
}

/// The tab at a position of the tab bar (positions are taken modulo four).
pub open spec fn tab_at(i: nat) -> Tab {
    let k = i % 4;
    if k == 0 {
        Tab::Tasks
    } else if k == 1 {
        Tab::Board
    } else if k == 2 {
        Tab::Stats
    } else {
        Tab::Logs
    }
}

/// The tab to the right, wrapping around.
pub open spec fn tab_next(t: Tab) -> Tab {
    tab_at(tab_index(t) + 1)
}

/// The tab to the left, wrapping around.
pub open spec fn tab_prev(t: Tab) -> Tab {
    tab_at(tab_index(t) + 3)
}

/// The label of a tab in the tab bar.
pub open spec fn tab_title(t: Tab) -> Seq<char> {
    match t {
        Tab::Tasks => "Tasks"@,
        Tab::Board => "Board"@,
        Tab::Stats => "Stats"@,
        Tab::Logs => "Logs"@,
    }
}

impl Tab {
    pub fn title(self) -> (r: &'static str)
        ensures
            r@ == tab_title(self),
    {
        match self {
            Tab::Tasks => "Tasks",
            Tab::Board => "Board",
            Tab::Stats => "Stats",
            Tab::Logs => "Logs",
        }
    }

    /// The position of this tab in the tab bar.
    pub fn index(self) -> (r: usize)
        ensures
            r == tab_index(self),
    {
        match self {
            Tab::Tasks => 0,
            Tab::Board => 1,
            Tab::Stats => 2,
            Tab::Logs => 3,
        }
    }

    /// The tab at position `i % 4` of the tab bar.
    pub fn at(i: usize) -> (r: Tab)
        ensures
            r == tab_at(i as nat),
    {
        let k = i % 4;
        if k == 0 {
            Tab::Tasks
        } else if k == 1 {
            Tab::Board
        } else if k == 2 {
            Tab::Stats
        } else {
            Tab::Logs
        }
    }

    pub fn next(self) -> (r: Tab)
        ensures
            r == tab_next(self),
    {
        Tab::at(self.index() + 1)
    }

    pub fn prev(self) -> (r: Tab)
        ensures
            r == tab_prev(self),
    {
        Tab::at(self.index() + 3)
    }
}

#[derive(Debug, Clone, Copy, PartialEq, Eq, Structural)]
pub enum Priority {
    Low,
    Medium,
    High,
}

/// The short label of a priority.
pub open spec fn priority_label(p: Priority) -> Seq<char> {
    match p {
        Priority::Low => "low"@,
        Priority::Medium => "med"@,
        Priority::High => "HIGH"@,
    }
}

impl Priority {
    pub fn label(self) -> (r: &'static str)
        ensures
            r@ == priority_label(self),
    {
        match self {
            Priority::Low => "low",
            Priority::Medium => "med",
            Priority::High => "HIGH",
        }
    }
}

/// Which board column a task sits in.
#[derive(Debug, Clone, Copy, PartialEq, Eq, Structural)]
pub enum Lane {
    Todo,
    Doing,
    Done,
}

/// The lane in board column `i` (columns past the last are the last).
pub open spec fn lane_at(i: nat) -> Lane {
    if i == 0 {
        Lane::Todo
    } else if i == 1 {
        Lane::Doing
    } else {
        Lane::Done
    }
}

/// The heading of a board lane.
pub open spec fn lane_title(l: Lane) -> Seq<char> {
    match l {
        Lane::Todo => "todo"@,
        Lane::Doing => "doing"@,
        Lane::Done => "done"@,
    }
}

impl Lane {
    pub fn title(self) -> (r: &'static str)
        ensures
            r@ == lane_title(self),
    {
        match self {
            Lane::Todo => "todo",
            Lane::Doing => "doing",
            Lane::Done => "done",
        }
    }

    /// The lane in board column `i`, one of the three columns.
    pub fn at(i: usize) -> (r: Lane)
        requires
            i < 3,
        ensures
            r == lane_at(i as nat),
    {
        if i == 0 {
            Lane::Todo
        } else if i == 1 {
            Lane::Doing
        } else {
            Lane::Done
        }
    }
}

/// What the app is doing right now — decides which keys mean what, and
/// whether an overlay is drawn on top of the main content.
#[derive(Debug, Clone, PartialEq, Eq)]
pub enum Mode {
    /// Normal navigation.
    Normal,
    /// Typing into the filter box; carries the in-progress query.
    Filter { draft: String },
    /// Modal confirmation before deleting the selected task.
    ConfirmDelete,
    /// Help overlay.
    Help,
    /// A task is "running": one frame is painted per percentage step.
    Running { pct: u8 },
}

/// The mathematical view of a [`Mode`].
pub enum ModeView {
    Normal,
    Filter { draft: Seq<char> },
    ConfirmDelete,
    Help,
    Running { pct: u8 },
}

impl View for Mode {
    type V = ModeView;

    open spec fn view(&self) -> ModeView {
        match self {
            Mode::Normal => ModeView::Normal,
            Mode::Filter { draft } => ModeView::Filter { draft: draft@ },
            Mode::ConfirmDelete => ModeView::ConfirmDelete,
            Mode::Help => ModeView::Help,
            Mode::Running { pct } => ModeView::Running { pct: *pct },
        }
    }
}

/// A side effect the renderer cannot express, emitted as a raw escape
/// sequence after the frame is drawn but before it is published.
#[derive(Debug, Clone, PartialEq, Eq)]
pub enum Effect {
    /// `BEL` — rejected input.
    Bell,
    /// `OSC 52` — write the string to the system clipboard.
    Copy(String),
    /// `OSC 0/2` — retitle the window.
    Title(String),
    /// `OSC 4` — redefine palette slots (true = high contrast, false = reset).
    Palette(bool),
}

/// The mathematical view of an [`Effect`].
pub enum EffectView {
    Bell,
    Copy(Seq<char>),
    Title(Seq<char>),
    Palette(bool),
}

impl View for Effect {
    type V = EffectView;

    open spec fn view(&self) -> EffectView {
        match self {
            Effect::Bell => EffectView::Bell,
            Effect::Copy(s) => EffectView::Copy(s@),
            Effect::Title(s) => EffectView::Title(s@),
            Effect::Palette(b) => EffectView::Palette(*b),
        }
    }
}

#[derive(Debug, Clone)]
pub struct Task {
    pub title: String,
    pub done: bool,
    pub priority: Priority,
    pub tags: Vec<String>,
    pub notes: String,
    /// Rendered as an `OSC 8` hyperlink: the label is on the grid, the
    /// target is not.
    pub url: Option<String>,
    /// Rendered with `SGR 8` (conceal).
    pub secret: Option<String>,
    /// Draws a badge with `SGR 5` (blink).
    pub overdue: bool,
    /// In the `Doing` lane on the board.
    pub started: bool,
}

/// The mathematical view of a [`Task`].
pub struct TaskView {
    pub title: Seq<char>,
    pub done: bool,
    pub priority: Priority,
    pub tags: Seq<Seq<char>>,
    pub notes: Seq<char>,
    pub url: Option<Seq<char>>,
    pub secret: Option<Seq<char>>,
    pub overdue: bool,
    pub started: bool,
}

/// The characters of an optional string.
pub open spec fn opt_view(s: Option<String>) -> Option<Seq<char>> {
    match s {
        Some(t) => Some(t@),
        None => None,
    }
}

/// The characters of each string, in order.
pub open spec fn strings_view(v: Seq<String>) -> Seq<Seq<char>> {
    v.map_values(|s: String| s@)
}

impl View for Task {
    type V = TaskView;

    open spec fn view(&self) -> TaskView {
        TaskView {
            title: self.title@,
            done: self.done,
            priority: self.priority,
            tags: strings_view(self.tags@),
            notes: self.notes@,
            url: opt_view(self.url),
            secret: opt_view(self.secret),
            overdue: self.overdue,
            started: self.started,
        }
    }
}

/// The board column of a task: finished tasks are done, started ones are
/// being done, the rest are to do.
pub open spec fn lane_of(t: TaskView) -> Lane {
    if t.done {
        Lane::Done
    } else if t.started {
        Lane::Doing
    } else {
        Lane::Todo
    }
}

impl Task {
    /// A task that is neither linked, secret, overdue nor started.
    pub fn new(title: &str, done: bool, priority: Priority, tags: &[&str], notes: &str) -> (r:
        Self)
        ensures
            r@ == (TaskView {
                title: title@,
                done,
                priority,
                tags: tags@.map_values(|t: &str| t@),
                notes: notes@,
                url: None,
                secret: None,
                overdue: false,
                started: false,
            }),
    {
        let mut owned: Vec<String> = Vec::new();
        for i in 0..tags.len()
            invariant
                owned@.len() == i,
                forall|k: int| 0 <= k < i ==> (#[trigger] owned@[k])@ == tags@[k]@,
        {
            owned.push(String::from_str(tags[i]));
        }
        assert(strings_view(owned@) =~= tags@.map_values(|t: &str| t@));
        Self {
            title: String::from_str(title),
            done,
            priority,
            tags: owned,
            notes: String::from_str(notes),
            url: None,
            secret: None,
            overdue: false,
            started: false,
        }
    }

    /// The same task, linked to `url`.
    pub fn url(self, url: &str) -> (r: Self)
        ensures
            r@ == (TaskView { url: Some(url@), ..self@ }),
    {
        let mut t = self;
        t.url = Some(String::from_str(url));
        t
    }

    /// The same task, carrying a concealed `secret`.
    pub fn secret(self, secret: &str) -> (r: Self)
        ensures
            r@ == (TaskView { secret: Some(secret@), ..self@ }),
    {
        let mut t = self;
        t.secret = Some(String::from_str(secret));
        t
    }

    /// The same task, marked overdue.
    pub fn overdue(self) -> (r: Self)
        ensures
            r@ == (TaskView { overdue: true, ..self@ }),
    {
        let mut t = self;
        t.overdue = true;
        t
    }

    /// The same task, marked started.
    pub fn started(self) -> (r: Self)
        ensures
            r@ == (TaskView { started: true, ..self@ }),
    {
        let mut t = self;
        t.started = true;
        t
    }

    pub fn lane(&self) -> (r: Lane)
        ensures
            r == lane_of(self@),
    {
        if self.done {
            Lane::Done
        } else if self.started {
            Lane::Doing
        } else {
            Lane::Todo
        }
    }
}

/// Why the app stopped — mapped to a process exit code.
#[derive(Debug, Clone, Copy, PartialEq, Eq, Structural)]
pub enum Quit {
    /// Clean quit via `q`.
    Normal,
    /// Interrupted via Ctrl-C.
    Interrupted,
    /// SIGTERM: shut down gracefully, then exit 143.
    Terminated,
}

/// The key of a key press, as far as the board tells keys apart.
#[derive(Debug, Clone, Copy, PartialEq, Eq, Structural)]
pub enum KeyCode {
    Char(char),
    Backspace,
    Enter,
    Esc,
    Tab,
    BackTab,
    Left,
    Right,
    Up,
    Down,
    PageUp,
    PageDown,
    Home,
    End,
    F(u8),
    /// Any key the board has no use for.
    Other,
}

/// One key press: the key, and whether Control was held.
#[derive(Debug, Clone, Copy, PartialEq, Eq, Structural)]
pub struct Key {
    pub code: KeyCode,
    pub ctrl: bool,
}

/// One input event from the terminal.
#[derive(Debug, Clone, PartialEq, Eq)]
pub enum Event {
    /// A key was pressed (releases and repeats are not reported).
    Key(Key),
    /// The left button went down on a terminal row.
    MouseLeft { row: u16 },
    /// The right button went down.
    MouseRight,
    /// One notch of the wheel towards the user.
    ScrollDown,
    /// One notch of the wheel away from the user.
    ScrollUp,
    /// A bracketed paste.
    Paste(String),
    /// The window gained (`true`) or lost (`false`) focus.
    Focus(bool),
    /// Anything else, a resize among them: nothing changes but the frame.
    Other,
}

/// What the event loop does after one round of polling.
#[derive(Debug, Clone, Copy, PartialEq, Eq, Structural)]
pub enum Tick {
    /// Nothing happened: no repaint, keep polling.
    Idle,
    /// Draw a frame and keep going.
    Redraw,
    /// Draw a last frame, then stop for this reason.
    Finish(Quit),
}

} // verus!
