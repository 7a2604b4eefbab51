//! The mathematical model of the board: what each query returns and what
//! each input does to the state, as functions on [`AppView`].

use vstd::prelude::*;

use crate::model::{lane_at, lane_of, tab_next, tab_prev, EffectView, Event, Key, KeyCode, Lane, ModeView, Priority, Quit, Tab, TaskView, Tick};
use crate::text::{decimal, lowercase, seq_contains, strip_controls, zero_padded};

verus! {

/// The mathematical view of an [`App`](crate::app::App).
pub struct AppView {
    pub tab: Tab,
    pub mode: ModeView,
    pub tasks: Seq<TaskView>,
    /// Index into the *filtered* view, not into `tasks`.
    pub selected: nat,
    /// The applied filter.
    pub filter: Seq<char>,
    pub logs: Seq<Seq<char>>,
    pub log_offset: nat,
    /// Which board column has the cursor.
    pub lane: nat,
    pub page_size: nat,
    pub quit: Option<Quit>,
    pub shutting_down: bool,
    pub toast: Option<Seq<char>>,
    pub focused: bool,
    pub high_contrast: bool,
    pub clipboard: Option<Seq<char>>,
    pub effects: Seq<EffectView>,
    pub link_hint: Option<(u16, u16, Seq<char>, Seq<char>)>,
}

/// Whether `needle` (already lowercased) occurs in the lowercased title or
/// in one of the lowercased tags of `t`.
pub open spec fn task_matches(t: TaskView, needle: Seq<char>) -> bool {
    seq_contains(lowercase(t.title), needle) || exists|j: int|
        0 <= j < t.tags.len() && seq_contains(lowercase(#[trigger] t.tags[j]), needle)
}

/// Whether a task survives the filter: every task survives an empty filter,
/// otherwise it must match the lowercased filter.
pub open spec fn keeps(t: TaskView, filter: Seq<char>) -> bool {
    filter.len() == 0 || task_matches(t, lowercase(filter))
}

/// The indices below `k` of the tasks that survive `filter`, in order.
pub open spec fn visible_upto(tasks: Seq<TaskView>, filter: Seq<char>, k: nat) -> Seq<usize>
    decreases k,
{
    if k == 0 {
        Seq::empty()
    } else {
        let prev = visible_upto(tasks, filter, (k - 1) as nat);
        if keeps(tasks[k - 1], filter) {
            prev.push((k - 1) as usize)
        } else {
            prev
        }
    }
}

/// The entries of `idxs` whose task sits in `lane`, in order.
pub open spec fn in_lane(tasks: Seq<TaskView>, idxs: Seq<usize>, lane: Lane) -> Seq<usize>
    decreases idxs.len(),
{
    if idxs.len() == 0 {
        idxs
    } else {
        let prev = in_lane(tasks, idxs.drop_last(), lane);
        if lane_of(tasks[idxs.last() as int]) == lane {
            prev.push(idxs.last())
        } else {
            prev
        }
    }
}

/// How many tasks are done.
pub open spec fn count_done(tasks: Seq<TaskView>) -> nat
    decreases tasks.len(),
{
    if tasks.len() == 0 {
        0
    } else {
        count_done(tasks.drop_last()) + if tasks.last().done {
            1nat
        } else {
            0nat
        }
    }
}

/// How many tasks have the given priority.
pub open spec fn count_priority(tasks: Seq<TaskView>, p: Priority) -> nat
    decreases tasks.len(),
{
    if tasks.len() == 0 {
        0
    } else {
        count_priority(tasks.drop_last(), p) + if tasks.last().priority == p {
            1nat
        } else {
            0nat
        }
    }
}

/// `a - b`, or zero where that would be negative.
pub open spec fn sat_sub(a: nat, b: nat) -> nat {
    if a >= b {
        (a - b) as nat
    } else {
        0
    }
}

/// `x` limited to `lo..=hi` (where `lo <= hi`).
pub open spec fn clamp_int(x: int, lo: int, hi: int) -> int {
    if x < lo {
        lo
    } else if x > hi {
        hi
    } else {
        x
    }
}

/// The smaller of two numbers.
pub open spec fn min_nat(a: nat, b: nat) -> nat {
    if a <= b {
        a
    } else {
        b
    }
}

/// One line of the seeded event log.
pub open spec fn log_line(i: nat) -> Seq<char> {
    "["@ + zero_padded(i, 3) + "] event "@ + decimal(i) + " — reader drained "@ + decimal(i * 17)
        + " bytes"@
}

/// A task as the seed list writes it: not linked, secret, overdue or started.
pub open spec fn seed(
    title: Seq<char>,
    done: bool,
    priority: Priority,
    tags: Seq<Seq<char>>,
    notes: Seq<char>,
) -> TaskView {
    TaskView {
        title,
        done,
        priority,
        tags,
        notes,
        url: None,
        secret: None,
        overdue: false,
        started: false,
    }
}

/// The thirteen tasks a new board starts with.
pub open spec fn initial_tasks() -> Seq<TaskView> {
    seq![
        TaskView {
            url: Some("https://example.invalid/rfc/pty-reader"@),
            ..seed(
                "Wire up the PTY reader"@,
                true,
                Priority::High,
                seq!["core"@, "io"@],
                "Drain continuously so the kernel buffer never stalls the child."@,
            )
        },
        seed(
            "Snapshot the screen grid"@,
            true,
            Priority::High,
            seq!["core"@],
            "Immutable snapshots taken under the reader lock."@,
        ),
        TaskView {
            started: true,
            ..seed(
                "帳票をレンダリングする"@,
                false,
                Priority::Medium,
                seq!["i18n"@],
                "Wide glyphs must occupy two columns and one continuation cell."@,
            )
        },
        TaskView {
            overdue: true,
            ..seed(
                "Handle SIGWINCH"@,
                false,
                Priority::High,
                seq!["core"@, "layout"@],
                "Resize the PTY and the emulated grid together."@,
            )
        },
        seed(
            "Add bracketed paste"@,
            false,
            Priority::Low,
            seq!["input"@],
            "Wrap pasted text in ESC[200~ / ESC[201~."@,
        ),
        seed(
            "Support 🚀 emoji width"@,
            false,
            Priority::Low,
            seq!["i18n"@],
            "Most emoji are double-width; a few are not."@,
        ),
        seed(
            "Document the wait heuristics"@,
            false,
            Priority::Medium,
            seq!["docs"@],
            "Silence is evidence a render finished, not proof."@,
        ),
        seed(
            "Benchmark the parser"@,
            true,
            Priority::Low,
            seq!["perf"@],
            "Snapshot caching keeps an idle terminal at one Arc clone."@,
        ),
        TaskView {
            started: true,
            ..seed(
                "Ship v0.2 styles block"@,
                false,
                Priority::Medium,
                seq!["docs"@, "core"@],
                "Render per-cell attributes into the snapshot text."@,
            )
        },
        seed(
            "Windows ConPTY support"@,
            false,
            Priority::Low,
            seq!["portability"@],
            "portable-pty already speaks ConPTY; the harness does not."@,
        ),
        TaskView {
            secret: Some("hunter2-rotate-me"@),
            overdue: true,
            ..seed(
                "Rotate the cafe\u{301} credentials"@,
                false,
                Priority::High,
                seq!["ops"@, "secret"@],
                "Decomposed text renders identically and compares differently."@,
            )
        },
        seed(
            "Audit 👨‍👩‍👧 🇻🇳 ❤️ glyph widths"@,
            false,
            Priority::Medium,
            seq!["i18n"@],
            "ZWJ sequences, flags and variation selectors each count differently."@,
        ),
        seed(
            "Trim trailing space   "@,
            false,
            Priority::Low,
            seq!["ui"@],
            "The three spaces after the title are real cells."@,
        ),
    ]
}

impl AppView {
    /// A new board: the seed tasks, forty log lines, the Tasks tab with the
    /// first row selected, nothing filtered, nothing pending.
    pub open spec fn initial() -> AppView {
        AppView {
            tab: Tab::Tasks,
            mode: ModeView::Normal,
            tasks: initial_tasks(),
            selected: 0,
            filter: Seq::empty(),
            logs: Seq::new(40, |i: int| log_line((i + 1) as nat)),
            log_offset: 0,
            lane: 0,
            page_size: 10,
            quit: None,
            shutting_down: false,
            toast: None,
            focused: true,
            high_contrast: false,
            clipboard: None,
            effects: Seq::empty(),
            link_hint: None,
        }
    }

    /// Indices into `tasks` that survive the current filter, in order.
    pub open spec fn visible(self) -> Seq<usize> {
        visible_upto(self.tasks, self.filter, self.tasks.len())
    }

    /// Indices of the visible tasks in one board lane.
    pub open spec fn lane_tasks(self, lane: Lane) -> Seq<usize> {
        in_lane(self.tasks, self.visible(), lane)
    }

    /// The index into `tasks` of the task under the cursor, if any.
    pub open spec fn selected_index(self) -> Option<usize> {
        if self.selected < self.visible().len() {
            Some(self.visible()[self.selected as int])
        } else {
            None
        }
    }

    pub open spec fn done_count(self) -> nat {
        count_done(self.tasks)
    }

    pub open spec fn open_count(self) -> nat {
        sat_sub(self.tasks.len(), count_done(self.tasks))
    }

    /// The window title, which tracks the number of open tasks.
    pub open spec fn window_title(self) -> Seq<char> {
        "taskboard — "@ + decimal(self.open_count()) + " open"@
    }

    /// The cursors point into their lists: the selection at a visible task
    /// (or at zero when none is visible), the log offset at a log line, the
    /// board cursor at one of the three lanes.
    pub open spec fn cursors_ok(self) -> bool {
        &&& (self.selected == 0 || self.selected < self.visible().len())
        &&& self.log_offset < self.logs.len()
        &&& self.lane < 3
    }

    /// No finished task is still marked started.
    pub open spec fn finished_not_started(self) -> bool {
        forall|i: int| 0 <= i < self.tasks.len() && #[trigger] self.tasks[i].done ==> !self.tasks[i].started
    }

    /// The state invariant every operation keeps.
    pub open spec fn wf(self) -> bool {
        self.cursors_ok() && self.finished_not_started()
    }

    /// Whether this key, in this state, moves the cursor within the board's
    /// current lane — which reads that lane's list, so the lane cursor must
    /// be on one of the three lanes.
    pub open spec fn key_reads_lane(self, key: Key) -> bool {
        let code = key.code;
        &&& self.mode is Normal
        &&& self.tab == Tab::Board
        &&& !(key.ctrl && code == KeyCode::Char('c'))
        &&& (code == KeyCode::Char('j') || code == KeyCode::Down || code == KeyCode::Char('k')
            || code == KeyCode::Up || code == KeyCode::PageDown || code == KeyCode::PageUp || code
            == KeyCode::End)
    }

    /// Whether this key, in this state, steps the board cursor one lane to
    /// the right.
    pub open spec fn key_steps_lane(self, key: Key) -> bool {
        &&& self.mode is Normal
        &&& self.tab == Tab::Board
        &&& (key.code == KeyCode::Char('l') || (key.code == KeyCode::Right && !key.ctrl))
    }

    /// What a key needs of the lane cursor: on one of the three lanes where
    /// it reads the lane, and short of the largest index where it steps it.
    pub open spec fn key_lane_ok(self, key: Key) -> bool {
        &&& self.key_reads_lane(key) ==> self.lane < 3
        &&& self.key_steps_lane(key) ==> self.lane < usize::MAX
    }

    /// What an event needs of the lane cursor.
    pub open spec fn event_lane_ok(self, event: Event) -> bool {
        match event {
            Event::Key(k) => self.key_lane_ok(k),
            Event::ScrollDown | Event::ScrollUp => self.tab == Tab::Board ==> self.lane < 3,
            _ => true,
        }
    }

    /// Shows a transient notice.
    pub open spec fn notified(self, message: Seq<char>) -> AppView {
        AppView { toast: Some(message), ..self }
    }

    /// Rings the bell.
    pub open spec fn rejected(self) -> AppView {
        AppView { effects: self.effects.push(EffectView::Bell), ..self }
    }

    /// Asks for the window title to be set from the current state.
    pub open spec fn retitled(self) -> AppView {
        AppView { effects: self.effects.push(EffectView::Title(self.window_title())), ..self }
    }

    /// Pulls the selection back into the visible list.
    pub open spec fn clamped(self) -> AppView {
        AppView { selected: min_nat(self.selected, sat_sub(self.visible().len(), 1)), ..self }
    }

    /// The length of the list the current tab shows.
    pub open spec fn list_len(self) -> nat {
        match self.tab {
            Tab::Tasks => self.visible().len(),
            Tab::Board => self.lane_tasks(lane_at(self.lane)).len(),
            Tab::Logs => self.logs.len(),
            Tab::Stats => 0,
        }
    }

    /// The cursor of the current tab: the log offset on Logs, the
    /// selection elsewhere.
    pub open spec fn cursor(self) -> nat {
        match self.tab {
            Tab::Logs => self.log_offset,
            _ => self.selected,
        }
    }

    pub open spec fn with_cursor(self, value: nat) -> AppView {
        match self.tab {
            Tab::Logs => AppView { log_offset: value, ..self },
            _ => AppView { selected: value, ..self },
        }
    }

    /// Moves the cursor by `delta`, stopping at both ends of the list.
    pub open spec fn moved_by(self, delta: int) -> AppView {
        let len = self.list_len();
        if len == 0 {
            self
        } else {
            self.with_cursor(clamp_int(self.cursor() + delta, 0, len - 1) as nat)
        }
    }

    pub open spec fn moved_to_end(self) -> AppView {
        self.with_cursor(sat_sub(self.list_len(), 1))
    }

    /// Flips the selected task between done and not done; a task that
    /// becomes done stops being started.
    pub open spec fn toggled(self) -> AppView {
        match self.selected_index() {
            Some(i) => {
                let t = self.tasks[i as int];
                let done = !t.done;
                let t2 = TaskView { done, started: if done { false } else { t.started }, ..t };
                AppView { tasks: self.tasks.update(i as int, t2), ..self }.retitled()
            },
            None => self,
        }
    }

    /// Keys while typing a filter draft.
    pub open spec fn filter_key(self, draft: Seq<char>, key: Key) -> AppView {
        match key.code {
            KeyCode::Char(c) => AppView { mode: ModeView::Filter { draft: draft.push(c) }, ..self },
            KeyCode::Backspace => if draft.len() == 0 {
                self.rejected()
            } else {
                AppView { mode: ModeView::Filter { draft: draft.drop_last() }, ..self }
            },
            KeyCode::Enter => AppView { filter: draft, mode: ModeView::Normal, ..self }.clamped(),
            KeyCode::Esc => AppView { mode: ModeView::Normal, ..self },
            _ => self,
        }
    }

    /// Deletes the task under the cursor, if any, announcing it.
    pub open spec fn deleted(self) -> AppView {
        match self.selected_index() {
            Some(i) => {
                let title = self.tasks[i as int].title;
                AppView { tasks: self.tasks.remove(i as int), ..self }.notified(
                    "deleted "@ + title,
                ).retitled()
            },
            None => self,
        }
    }

    /// Keys while the delete confirmation is open.
    pub open spec fn confirm_key(self, key: Key) -> AppView {
        if key.code == KeyCode::Char('y') || key.code == KeyCode::Enter {
            AppView { mode: ModeView::Normal, ..self.deleted() }.clamped()
        } else if key.code == KeyCode::Char('n') || key.code == KeyCode::Esc {
            AppView { mode: ModeView::Normal, ..self }
        } else {
            self.rejected()
        }
    }

    /// Keys while the help overlay is open.
    pub open spec fn help_key(self, key: Key) -> AppView {
        if key.code == KeyCode::Esc || key.code == KeyCode::Char('?') || key.code == KeyCode::Char(
            'q',
        ) || key.code == KeyCode::F(1) {
            AppView { mode: ModeView::Normal, ..self }
        } else {
            self
        }
    }

    /// Copies the selected title to the clipboard, or rings.
    pub open spec fn yanked(self) -> AppView {
        match self.selected_index() {
            Some(i) => {
                let title = self.tasks[i as int].title;
                AppView {
                    clipboard: Some(title),
                    effects: self.effects.push(EffectView::Copy(title)),
                    ..self
                }.notified("copied "@ + title)
            },
            None => self.rejected(),
        }
    }

    /// Flips the high-contrast palette.
    pub open spec fn contrast_toggled(self) -> AppView {
        let hc = !self.high_contrast;
        AppView {
            high_contrast: hc,
            effects: self.effects.push(EffectView::Palette(hc)),
            ..self
        }.notified(
            "high contrast "@ + if hc {
                "on"@
            } else {
                "off"@
            },
        )
    }

    /// Keys in normal navigation.
    pub open spec fn normal_key(self, key: Key) -> AppView {
        let code = key.code;
        let ctrl = key.ctrl;
        if code == KeyCode::Char('q') {
            AppView { quit: Some(Quit::Normal), ..self }
        } else if code == KeyCode::Right && ctrl {
            AppView { tab: tab_next(self.tab), ..self }
        } else if code == KeyCode::Left && ctrl {
            AppView { tab: tab_prev(self.tab), ..self }
        } else if code == KeyCode::Tab {
            AppView { tab: tab_next(self.tab), ..self }
        } else if code == KeyCode::BackTab {
            AppView { tab: tab_prev(self.tab), ..self }
        } else if code == KeyCode::Char('?') || code == KeyCode::F(1) {
            AppView { mode: ModeView::Help, ..self }
        } else if code == KeyCode::Char('j') || code == KeyCode::Down {
            self.moved_by(1)
        } else if code == KeyCode::Char('k') || code == KeyCode::Up {
            self.moved_by(-1)
        } else if code == KeyCode::PageDown {
            self.moved_by(self.page_size as int)
        } else if code == KeyCode::PageUp {
            self.moved_by(-(self.page_size as int))
        } else if code == KeyCode::Home {
            self.with_cursor(0)
        } else if code == KeyCode::End {
            self.moved_to_end()
        } else if (code == KeyCode::Char('h') || code == KeyCode::Left) && self.tab == Tab::Board {
            AppView { lane: sat_sub(self.lane, 1), ..self }
        } else if (code == KeyCode::Char('l') || code == KeyCode::Right) && self.tab
            == Tab::Board {
            AppView { lane: min_nat(self.lane + 1, 2), ..self }
        } else if code == KeyCode::Char(' ') && self.tab == Tab::Tasks {
            self.toggled()
        } else if code == KeyCode::Char('d') && self.tab == Tab::Tasks {
            if self.selected_index() is Some {
                AppView { mode: ModeView::ConfirmDelete, ..self }
            } else {
                self.rejected()
            }
        } else if code == KeyCode::Char('/') && self.tab == Tab::Tasks {
            AppView { mode: ModeView::Filter { draft: self.filter }, ..self }
        } else if code == KeyCode::Char('y') {
            self.yanked()
        } else if code == KeyCode::Char('r') && self.tab == Tab::Tasks {
            if self.selected_index() is Some {
                AppView { mode: ModeView::Running { pct: 0 }, ..self }
            } else {
                self.rejected()
            }
        } else if code == KeyCode::Char('T') {
            self.contrast_toggled()
        } else if code == KeyCode::Esc && self.tab == Tab::Tasks && self.filter.len() > 0 {
            AppView { filter: Seq::empty(), ..self }.clamped()
        } else {
            self
        }
    }

    /// One key press: the previous notice is cleared, Ctrl-C quits from any
    /// mode, and otherwise the mode decides; a run ignores keys.
    pub open spec fn on_key(self, key: Key) -> AppView {
        let s = AppView { toast: None, ..self };
        if key.ctrl && key.code == KeyCode::Char('c') {
            AppView { quit: Some(Quit::Interrupted), ..s }
        } else {
            match self.mode {
                ModeView::Filter { draft } => s.filter_key(draft, key),
                ModeView::ConfirmDelete => s.confirm_key(key),
                ModeView::Help => s.help_key(key),
                ModeView::Running { .. } => s,
                ModeView::Normal => s.normal_key(key),
            }
        }
    }

    /// A bracketed paste: in filter mode its non-control characters extend
    /// the draft; elsewhere it is ignored.
    pub open spec fn on_paste(self, text: Seq<char>) -> AppView {
        match self.mode {
            ModeView::Filter { draft } => AppView {
                mode: ModeView::Filter { draft: draft + strip_controls(text) },
                ..self
            },
            _ => self,
        }
    }

    pub open spec fn on_focus(self, focused: bool) -> AppView {
        AppView { focused, ..self }
    }

    /// Whether another step of a run follows this one.
    pub open spec fn step_continues(self) -> bool {
        match self.mode {
            ModeView::Running { pct } => pct < 100,
            _ => false,
        }
    }

    /// One step of a run: ten percent more, or, at a hundred, the selected
    /// task finishes and the board returns to normal mode.
    pub open spec fn stepped(self) -> AppView {
        match self.mode {
            ModeView::Running { pct } => if pct >= 100 {
                let s = match self.selected_index() {
                    Some(i) => {
                        let t = self.tasks[i as int];
                        AppView {
                            tasks: self.tasks.update(
                                i as int,
                                TaskView { done: true, started: false, ..t },
                            ),
                            ..self
                        }.notified("finished "@ + t.title)
                    },
                    None => self,
                };
                AppView { mode: ModeView::Normal, ..s }.retitled()
            } else {
                AppView { mode: ModeView::Running { pct: (pct + 10) as u8 }, ..self }
            },
            _ => self,
        }
    }

    /// A click on row `row` of the list pane.
    pub open spec fn row_selected(self, row: nat) -> AppView {
        if self.tab == Tab::Tasks && row < self.visible().len() {
            AppView { selected: row, ..self }
        } else {
            self
        }
    }

    /// Drops the applied filter.
    pub open spec fn filter_cleared(self) -> AppView {
        AppView { filter: Seq::empty(), ..self }.clamped()
    }

    /// One input event. Every event ends the previous frame's notice. A
    /// left click lands on list row `row - 4` (below the tab bar and the
    /// list's border); the wheel moves the cursor by one.
    pub open spec fn on_event(self, event: Event) -> AppView {
        let s = AppView { toast: None, ..self };
        match event {
            Event::Key(k) => s.on_key(k),
            Event::MouseLeft { row } => if row >= 4 {
                s.row_selected((row - 4) as nat)
            } else {
                s
            },
            Event::MouseRight => s.filter_cleared(),
            Event::ScrollDown => s.moved_by(1),
            Event::ScrollUp => s.moved_by(-1),
            Event::Paste(text) => s.on_paste(text@),
            Event::Focus(f) => s.on_focus(f),
            Event::Other => s,
        }
    }

    /// The state after a round of polling that delivered `event`, if any.
    pub open spec fn after_input(self, event: Option<Event>) -> AppView {
        match event {
            Some(e) => self.on_event(e),
            None => self,
        }
    }

    /// One round of the event loop. With no event and no SIGTERM nothing
    /// changes. Otherwise the event (if any) is handled; then SIGTERM, unless
    /// the app is already quitting, starts the wind-down.
    pub open spec fn ticked(self, event: Option<Event>, terminate: bool) -> AppView {
        if event is None && !terminate {
            self
        } else {
            let s = self.after_input(event);
            if terminate && s.quit is None {
                AppView { shutting_down: true, ..s }
            } else {
                s
            }
        }
    }

    /// What the loop does after that round: nothing when idle; a last
    /// frame and exit 143 on SIGTERM; a last frame and the quit reason once
    /// the app quits; otherwise a frame.
    pub open spec fn tick_result(self, event: Option<Event>, terminate: bool) -> Tick {
        if event is None && !terminate {
            Tick::Idle
        } else {
            let s = self.after_input(event);
            if terminate && s.quit is None {
                Tick::Finish(Quit::Terminated)
            } else {
                match s.quit {
                    Some(q) => Tick::Finish(q),
                    None => Tick::Redraw,
                }
            }
        }
    }

}

} // verus!
