//! Application state and the key-handling logic that drives it.
//!
//! Kept free of rendering so the state machine can be reasoned about on its
//! own; each operation is proved to move the state exactly as the model in
//! `state` says.

use vstd::prelude::*;

use crate::model::{
    opt_view, strings_view, Effect, EffectView, Event, Key,
    KeyCode, Lane, Mode, Priority, Quit, Tab, Task, TaskView, Tick,
};
use crate::state::{
    count_done, count_priority, in_lane, min_nat, sat_sub, initial_tasks, keeps, log_line, task_matches,
    visible_upto, AppView,
};
use crate::text::{
    chars_of, contains, decimal, is_control, lowercase, pop_char, push_char, push_decimal,
    push_decimal_03, seq_contains, strip_controls, to_lowercase,
};

verus! {

pub struct App {
    pub tab: Tab,
    pub mode: Mode,
    pub tasks: Vec<Task>,
    /// Index into the *filtered* view, not into `tasks`.
    pub selected: usize,
    /// Applied filter (the committed one, not the in-progress draft).
    pub filter: String,
    pub logs: Vec<String>,
    pub log_offset: usize,
    /// Which board column has the cursor.
    pub lane: usize,
    /// How many rows the list pane last had — set by the renderer so paging
    /// keys can move by a real page.
    pub page_size: usize,
    pub quit: Option<Quit>,
    /// Set while the app is winding down after SIGTERM, so the last frame
    /// can say so before the process leaves.
    pub shutting_down: bool,
    /// A transient notice, shown on exactly one frame and then cleared.
    pub toast: Option<String>,
    /// False while the terminal reports the window is unfocused (mode 1004).
    pub focused: bool,
    /// High-contrast palette applied via `OSC 4`.
    pub high_contrast: bool,
    /// Whatever was last yanked, so the UI can say so.
    pub clipboard: Option<String>,
    /// Escape sequences to emit with the next frame.
    pub effects: Vec<Effect>,
    /// Set by the renderer: where the hyperlink label landed, and its
    /// target, so it can be re-emitted wrapped in `OSC 8`.
    pub link_hint: Option<(u16, u16, String, String)>,
}

/// The views of a sequence of tasks.
pub open spec fn tasks_view(v: Seq<Task>) -> Seq<TaskView> {
    v.map_values(|t: Task| t@)
}

/// The views of a sequence of effects.
pub open spec fn effects_view(v: Seq<Effect>) -> Seq<EffectView> {
    v.map_values(|e: Effect| e@)
}

impl View for App {
    type V = AppView;

    open spec fn view(&self) -> AppView {
        AppView {
            tab: self.tab,
            mode: self.mode@,
            tasks: tasks_view(self.tasks@),
            selected: self.selected as nat,
            filter: self.filter@,
            logs: strings_view(self.logs@),
            log_offset: self.log_offset as nat,
            lane: self.lane as nat,
            page_size: self.page_size as nat,
            quit: self.quit,
            shutting_down: self.shutting_down,
            toast: opt_view(self.toast),
            focused: self.focused,
            high_contrast: self.high_contrast,
            clipboard: opt_view(self.clipboard),
            effects: effects_view(self.effects@),
            link_hint: match self.link_hint {
                Some((x, y, label, url)) => Some((x, y, label@, url@)),
                None => None,
            },
        }
    }
}

/// Whether `needle` occurs in a (lowercased) title or in one of the
/// (lowercased) tags.
pub fn matches_lowered(title: &Vec<char>, tags: &Vec<Vec<char>>, needle: &Vec<char>) -> (r: bool)
    ensures
        r == (seq_contains(title@, needle@) || exists|j: int|
            0 <= j < tags@.len() && seq_contains(#[trigger] tags@[j]@, needle@)),
{
    if contains(title, needle) {
        return true;
    }
    let n = tags.len();
    for j in 0..n
        invariant
            n == tags@.len(),
            forall|k: int| 0 <= k < j ==> !seq_contains(#[trigger] tags@[k]@, needle@),
    {
        if contains(&tags[j], needle) {
            return true;
        }
    }
    false
}

/// Whether a task matches an already lowercased needle, by title or tag.
fn matches_needle(t: &Task, needle: &Vec<char>) -> (r: bool)
    ensures
        r == task_matches(t@, needle@),
{
    let title = chars_of(to_lowercase(t.title.as_str()).as_str());
    let n = t.tags.len();
    let mut tags: Vec<Vec<char>> = Vec::new();
    for j in 0..n
        invariant
            n == t.tags@.len(),
            tags@.len() == j,
            forall|k: int| 0 <= k < j ==> (#[trigger] tags@[k])@ == lowercase(t@.tags[k]),
    {
        assert(t@.tags[j as int] == t.tags@[j as int]@);
        tags.push(chars_of(to_lowercase(t.tags[j].as_str()).as_str()));
    }
    let r = matches_lowered(&title, &tags, needle);
    proof {
        if r {
            if !seq_contains(title@, needle@) {
                let j = choose|j: int| 0 <= j < tags@.len() && seq_contains(#[trigger] tags@[j]@, needle@);
                assert(seq_contains(lowercase(t@.tags[j]), needle@));
            }
        } else {
            assert forall|j: int| 0 <= j < t@.tags.len() implies !seq_contains(
                lowercase(#[trigger] t@.tags[j]),
                needle@,
            ) by {
                assert(tags@[j]@ == lowercase(t@.tags[j]));
            }
        }
    }
    r
}

/// The seed tasks of a new board.
fn seed_tasks() -> (r: Vec<Task>)
    ensures
        tasks_view(r@) == initial_tasks(),
{
    // Deliberately includes CJK, a ZWJ emoji sequence, a regional-
    // indicator flag, a VS16 emoji, decomposed (NFD) text and a title
    // with trailing whitespace: every one of them is a place where
    // column arithmetic or text comparison can disagree with what a
    // real terminal shows.
    let t0 = Task::new(
            "Wire up the PTY reader",
            true,
            Priority::High,
            &["core", "io"],
            "Drain continuously so the kernel buffer never stalls the child.",
        ).url("https://example.invalid/rfc/pty-reader");
    assert(t0@.tags =~= initial_tasks()[0].tags);
    assert(t0@ == initial_tasks()[0]);
    let t1 = Task::new(
            "Snapshot the screen grid",
            true,
            Priority::High,
            &["core"],
            "Immutable snapshots taken under the reader lock.",
        );
    assert(t1@.tags =~= initial_tasks()[1].tags);
    assert(t1@ == initial_tasks()[1]);
    let t2 = Task::new(
            "帳票をレンダリングする",
            false,
            Priority::Medium,
            &["i18n"],
            "Wide glyphs must occupy two columns and one continuation cell.",
        ).started();
    assert(t2@.tags =~= initial_tasks()[2].tags);
    assert(t2@ == initial_tasks()[2]);
    let t3 = Task::new(
            "Handle SIGWINCH",
            false,
            Priority::High,
            &["core", "layout"],
            "Resize the PTY and the emulated grid together.",
        ).overdue();
    assert(t3@.tags =~= initial_tasks()[3].tags);
    assert(t3@ == initial_tasks()[3]);
    let t4 = Task::new(
            "Add bracketed paste",
            false,
            Priority::Low,
            &["input"],
            "Wrap pasted text in ESC[200~ / ESC[201~.",
        );
    assert(t4@.tags =~= initial_tasks()[4].tags);
    assert(t4@ == initial_tasks()[4]);
    let t5 = Task::new(
            "Support 🚀 emoji width",
            false,
            Priority::Low,
            &["i18n"],
            "Most emoji are double-width; a few are not.",
        );
    assert(t5@.tags =~= initial_tasks()[5].tags);
    assert(t5@ == initial_tasks()[5]);
    let t6 = Task::new(
            "Document the wait heuristics",
            false,
            Priority::Medium,
            &["docs"],
            "Silence is evidence a render finished, not proof.",
        );
    assert(t6@.tags =~= initial_tasks()[6].tags);
    assert(t6@ == initial_tasks()[6]);
    let t7 = Task::new(
            "Benchmark the parser",
            true,
            Priority::Low,
            &["perf"],
            "Snapshot caching keeps an idle terminal at one Arc clone.",
        );
    assert(t7@.tags =~= initial_tasks()[7].tags);
    assert(t7@ == initial_tasks()[7]);
    let t8 = Task::new(
            "Ship v0.2 styles block",
            false,
            Priority::Medium,
            &["docs", "core"],
            "Render per-cell attributes into the snapshot text.",
        ).started();
    assert(t8@.tags =~= initial_tasks()[8].tags);
    assert(t8@ == initial_tasks()[8]);
    let t9 = Task::new(
            "Windows ConPTY support",
            false,
            Priority::Low,
            &["portability"],
            "portable-pty already speaks ConPTY; the harness does not.",
        );
    assert(t9@.tags =~= initial_tasks()[9].tags);
    assert(t9@ == initial_tasks()[9]);
    // NFD: 'e' + U+0301, not the precomposed U+00E9.
    let t10 = Task::new(
            "Rotate the cafe\u{301} credentials",
            false,
            Priority::High,
            &["ops", "secret"],
            "Decomposed text renders identically and compares differently.",
        ).secret("hunter2-rotate-me").overdue();
    assert(t10@.tags =~= initial_tasks()[10].tags);
    assert(t10@ == initial_tasks()[10]);
    // A ZWJ sequence, a regional-indicator flag, and a VS16 emoji.
    let t11 = Task::new(
            "Audit 👨‍👩‍👧 🇻🇳 ❤️ glyph widths",
            false,
            Priority::Medium,
            &["i18n"],
            "ZWJ sequences, flags and variation selectors each count differently.",
        );
    assert(t11@.tags =~= initial_tasks()[11].tags);
    assert(t11@ == initial_tasks()[11]);
    // Trailing whitespace survives in the grid.
    let t12 = Task::new(
            "Trim trailing space   ",
            false,
            Priority::Low,
            &["ui"],
            "The three spaces after the title are real cells.",
        );
    assert(t12@.tags =~= initial_tasks()[12].tags);
    assert(t12@ == initial_tasks()[12]);
    let tasks = vec![t0, t1, t2, t3, t4, t5, t6, t7, t8, t9, t10, t11, t12];
    assert(tasks_view(tasks@) =~= initial_tasks());
    tasks
}

impl Default for App {
    fn default() -> (r: Self)
        ensures
            r@ == AppView::initial(),
    {
        Self::new()
    }
}

impl App {
    pub fn new() -> (r: Self)
        ensures
            r@ == AppView::initial(),
            r@.wf(),
    {
        let tasks = seed_tasks();

        let mut logs: Vec<String> = Vec::new();
        let mut i: u64 = 1;
        while i <= 40
            invariant
                1 <= i <= 41,
                logs@.len() == i - 1,
                forall|k: int| 0 <= k < i - 1 ==> (#[trigger] logs@[k])@ == log_line((k + 1) as nat),
            decreases 41 - i,
        {
            let mut line = String::from_str("[");
            push_decimal_03(&mut line, i);
            line.append("] event ");
            push_decimal(&mut line, i);
            line.append(" — reader drained ");
            push_decimal(&mut line, i * 17);
            line.append(" bytes");
            logs.push(line);
            i = i + 1;
        }
        assert(strings_view(logs@) =~= Seq::new(40, |k: int| log_line((k + 1) as nat)));

        let app = Self {
            tab: Tab::Tasks,
            mode: Mode::Normal,
            tasks,
            selected: 0,
            filter: String::new(),
            logs,
            log_offset: 0,
            lane: 0,
            page_size: 10,
            quit: None,
            shutting_down: false,
            toast: None,
            focused: true,
            high_contrast: false,
            clipboard: None,
            effects: Vec::new(),
            link_hint: None,
        };
        assert(app@.effects =~= Seq::<EffectView>::empty());
        app
    }

    /// Indices into `tasks` that survive the current filter, in order.
    pub fn visible(&self) -> (r: Vec<usize>)
        ensures
            r@ == self@.visible(),
    {
        let n = self.tasks.len();
        let mut out: Vec<usize> = Vec::new();
        if self.filter.as_str().is_empty() {
            for i in 0..n
                invariant
                    n == self.tasks@.len(),
                    self@.filter.len() == 0,
                    out@ == visible_upto(self@.tasks, self@.filter, i as nat),
            {
                out.push(i);
            }
            return out;
        }
        let needle = chars_of(to_lowercase(self.filter.as_str()).as_str());
        for i in 0..n
            invariant
                n == self.tasks@.len(),
                self@.filter.len() > 0,
                needle@ == lowercase(self@.filter),
                out@ == visible_upto(self@.tasks, self@.filter, i as nat),
        {
            let ghost t = self@.tasks[i as int];
            assert(t == self.tasks@[i as int]@);
            if matches_needle(&self.tasks[i], &needle) {
                out.push(i);
            }
        }
        out
    }

    /// The task under the cursor, if the filtered view is non-empty.
    pub fn selected_task(&self) -> (r: Option<&Task>)
        ensures
            match self@.selected_index() {
                Some(i) => r == Some(&self.tasks@[i as int]),
                None => r is None,
            },
    {
        let visible = self.visible();
        if self.selected < visible.len() {
            let i = visible[self.selected];
            proof {
                lemma_visible_in_range(self@.tasks, self@.filter, self@.tasks.len());
            }
            Some(&self.tasks[i])
        } else {
            None
        }
    }

    pub fn done_count(&self) -> (r: usize)
        ensures
            r == self@.done_count(),
            r <= self.tasks@.len(),
    {
        let n = self.tasks.len();
        let mut count: usize = 0;
        for i in 0..n
            invariant
                n == self.tasks@.len(),
                count == count_done(self@.tasks.take(i as int)),
                count <= i,
        {
            assert(self@.tasks.take(i + 1).drop_last() =~= self@.tasks.take(i as int));
            if self.tasks[i].done {
                count = count + 1;
            }
        }
        assert(self@.tasks.take(n as int) =~= self@.tasks);
        count
    }

    pub fn open_count(&self) -> (r: usize)
        ensures
            r == self@.open_count(),
    {
        self.tasks.len() - self.done_count()
    }

    pub fn count_by(&self, priority: Priority) -> (r: usize)
        ensures
            r == count_priority(self@.tasks, priority),
    {
        let n = self.tasks.len();
        let mut count: usize = 0;
        for i in 0..n
            invariant
                n == self.tasks@.len(),
                count == count_priority(self@.tasks.take(i as int), priority),
                count <= i,
        {
            assert(self@.tasks.take(i + 1).drop_last() =~= self@.tasks.take(i as int));
            if self.tasks[i].priority == priority {
                count = count + 1;
            }
        }
        assert(self@.tasks.take(n as int) =~= self@.tasks);
        count
    }

    /// Indices of the visible tasks in one board lane.
    pub fn lane_tasks(&self, lane: Lane) -> (r: Vec<usize>)
        ensures
            r@ == self@.lane_tasks(lane),
    {
        let visible = self.visible();
        proof {
            lemma_visible_in_range(self@.tasks, self@.filter, self@.tasks.len());
        }
        let mut out: Vec<usize> = Vec::new();
        for k in 0..visible.len()
            invariant
                visible@ == self@.visible(),
                forall|m: int| 0 <= m < visible@.len() ==> #[trigger] visible@[m] < self.tasks@.len(),
                out@ == in_lane(self@.tasks, visible@.take(k as int), lane),
        {
            let i = visible[k];
            assert(visible@.take(k + 1).drop_last() =~= visible@.take(k as int));
            assert(self@.tasks[i as int] == self.tasks@[i as int]@);
            if self.tasks[i].lane() == lane {
                out.push(i);
            }
        }
        assert(visible@.take(visible@.len() as int) =~= visible@);
        out
    }

    /// The window title, which tracks state rather than being set once.
    pub fn window_title(&self) -> (r: String)
        ensures
            r@ == self@.window_title(),
    {
        let mut s = String::from_str("taskboard — ");
        push_decimal(&mut s, self.open_count() as u64);
        s.append(" open");
        s
    }
}

impl App {
    fn notify(&mut self, message: String)
        ensures
            final(self)@ == old(self)@.notified(message@),
    {
        self.toast = Some(message);
    }

    fn reject(&mut self)
        ensures
            final(self)@ == old(self)@.rejected(),
    {
        let ghost before = self.effects@;
        self.effects.push(Effect::Bell);
        proof {
            lemma_effects_push(before, Effect::Bell);
        }
    }

    /// Queues a window-title update that reflects the current state.
    pub fn retitle(&mut self)
        ensures
            final(self)@ == old(self)@.retitled(),
    {
        let title = self.window_title();
        let ghost before = self.effects@;
        let e = Effect::Title(title);
        let ghost ev = e;
        self.effects.push(e);
        proof {
            lemma_effects_push(before, ev);
        }
    }

    fn clamp_selection(&mut self)
        ensures
            final(self)@ == old(self)@.clamped(),
    {
        let len = self.visible().len();
        let last = if len == 0 {
            0
        } else {
            len - 1
        };
        if self.selected > last {
            self.selected = last;
        }
    }

    /// The length of the list the current tab shows.
    fn list_len(&self) -> (r: usize)
        requires
            self.tab == Tab::Board ==> self.lane < 3,
        ensures
            r == self@.list_len(),
    {
        match self.tab {
            Tab::Tasks => self.visible().len(),
            Tab::Board => self.lane_tasks(Lane::at(self.lane)).len(),
            Tab::Logs => self.logs.len(),
            Tab::Stats => 0,
        }
    }

    /// The cursor of the current tab.
    fn cursor_value(&self) -> (r: usize)
        ensures
            r == self@.cursor(),
    {
        match self.tab {
            Tab::Logs => self.log_offset,
            _ => self.selected,
        }
    }

    fn set_cursor(&mut self, value: usize)
        ensures
            final(self)@ == old(self)@.with_cursor(value as nat),
    {
        match self.tab {
            Tab::Logs => self.log_offset = value,
            _ => self.selected = value,
        }
    }

    /// Moves the cursor within whichever list the current tab shows.
    fn move_by(&mut self, delta: i128)
        requires
            old(self).tab == Tab::Board ==> old(self).lane < 3,
            -0x1_0000_0000_0000_0000 <= delta <= 0x1_0000_0000_0000_0000,
        ensures
            final(self)@ == old(self)@.moved_by(delta as int),
    {
        let len = self.list_len();
        if len == 0 {
            return ;
        }
        let cursor = self.cursor_value();
        let target: i128 = cursor as i128 + delta;
        let last: usize = len - 1;
        let next: usize = if target < 0 {
            0
        } else if target > last as i128 {
            last
        } else {
            target as usize
        };
        self.set_cursor(next);
    }

    fn move_to_start(&mut self)
        ensures
            final(self)@ == old(self)@.with_cursor(0),
    {
        self.set_cursor(0);
    }

    fn move_to_end(&mut self)
        requires
            old(self).tab == Tab::Board ==> old(self).lane < 3,
        ensures
            final(self)@ == old(self)@.moved_to_end(),
    {
        let len = self.list_len();
        let last = if len == 0 {
            0
        } else {
            len - 1
        };
        self.set_cursor(last);
    }

    fn toggle_done(&mut self)
        ensures
            final(self)@ == old(self)@.toggled(),
    {
        let visible = self.visible();
        if self.selected < visible.len() {
            let idx = visible[self.selected];
            proof {
                lemma_visible_in_range(self@.tasks, self@.filter, self@.tasks.len());
            }
            let ghost before = self.tasks@;
            let done = !self.tasks[idx].done;
            self.tasks[idx].done = done;
            if done {
                self.tasks[idx].started = false;
            }
            proof {
                let t = before[idx as int];
                let t2 = Task { done, started: if done { false } else { t.started }, ..t };
                assert(self.tasks@ =~= before.update(idx as int, t2));
                lemma_tasks_update(before, idx as int, t2);
            }
            self.retitle();
        }
    }

    /// Select the task on a given row of the list pane — the click target.
    pub fn select_row(&mut self, row: usize)
        ensures
            final(self)@ == old(self)@.row_selected(row as nat),
    {
        if self.tab == Tab::Tasks && row < self.visible().len() {
            self.selected = row;
        }
    }

    /// Move the cursor by a wheel notch.
    pub fn scroll_by(&mut self, delta: isize)
        requires
            old(self).tab == Tab::Board ==> old(self).lane < 3,
        ensures
            final(self)@ == old(self)@.moved_by(delta as int),
    {
        self.move_by(delta as i128);
    }

    /// Drop any applied filter — the right-click action.
    pub fn clear_filter(&mut self)
        ensures
            final(self)@ == old(self)@.filter_cleared(),
    {
        self.filter = String::new();
        self.clamp_selection();
    }

    /// The terminal reported a focus change (mode 1004).
    pub fn on_focus(&mut self, focused: bool)
        ensures
            final(self)@ == old(self)@.on_focus(focused),
    {
        self.focused = focused;
    }
}

impl App {
    /// Feed one key press through the state machine.
    pub fn on_key(&mut self, key: Key)
        requires
            old(self)@.key_lane_ok(key),
        ensures
            final(self)@ == old(self)@.on_key(key),
    {
        // A new key means the previous frame's transient notice is spent.
        self.toast = None;

        // Ctrl-C always wins, in every mode.
        if key.ctrl && key.code == KeyCode::Char('c') {
            self.quit = Some(Quit::Interrupted);
            return ;
        }
        match &self.mode {
            Mode::Filter { .. } => self.on_key_filter(key),
            Mode::ConfirmDelete => self.on_key_confirm(key),
            Mode::Help => self.on_key_help(key),
            // A run is not interactive; any key is ignored until it ends.
            Mode::Running { .. } => {},
            Mode::Normal => self.on_key_normal(key),
        }
    }

    fn on_key_filter(&mut self, key: Key)
        requires
            old(self).mode is Filter,
        ensures
            final(self)@ == old(self)@.filter_key(old(self)@.mode->draft, key),
    {
        let mut draft = match &self.mode {
            Mode::Filter { draft } => draft.clone(),
            _ => {
                return ;
            },
        };
        match key.code {
            KeyCode::Char(c) => {
                push_char(&mut draft, c);
                self.mode = Mode::Filter { draft };
            },
            KeyCode::Backspace => {
                let popped = pop_char(&mut draft);
                self.mode = Mode::Filter { draft };
                if popped.is_none() {
                    // Nothing left to erase: say so audibly.
                    self.reject();
                }
            },
            KeyCode::Enter => {
                self.filter = draft;
                self.mode = Mode::Normal;
                self.clamp_selection();
            },
            KeyCode::Esc => self.mode = Mode::Normal,
            _ => {},
        }
    }

    /// Deletes the task under the cursor, if any.
    fn delete_selected(&mut self)
        ensures
            final(self)@ == old(self)@.deleted(),
    {
        let visible = self.visible();
        if self.selected < visible.len() {
            let idx = visible[self.selected];
            proof {
                lemma_visible_in_range(self@.tasks, self@.filter, self@.tasks.len());
            }
            let title = self.tasks[idx].title.clone();
            let ghost before = self.tasks@;
            self.tasks.remove(idx);
            proof {
                lemma_tasks_remove(before, idx as int);
            }
            let mut message = String::from_str("deleted ");
            message.append(title.as_str());
            self.notify(message);
            self.retitle();
        }
    }

    fn on_key_confirm(&mut self, key: Key)
        ensures
            final(self)@ == old(self)@.confirm_key(key),
    {
        match key.code {
            KeyCode::Char('y') | KeyCode::Enter => {
                self.delete_selected();
                self.mode = Mode::Normal;
                self.clamp_selection();
            },
            KeyCode::Char('n') | KeyCode::Esc => self.mode = Mode::Normal,
            // A modal that ignores a key silently is indistinguishable from
            // one that hung — ring instead.
            _ => self.reject(),
        }
    }

    fn on_key_help(&mut self, key: Key)
        ensures
            final(self)@ == old(self)@.help_key(key),
    {
        match key.code {
            KeyCode::Esc | KeyCode::Char('?') | KeyCode::Char('q') | KeyCode::F(1) => {
                self.mode = Mode::Normal;
            },
            _ => {},
        }
    }

    /// Yank the selected title to the system clipboard (OSC 52).
    fn yank(&mut self)
        ensures
            final(self)@ == old(self)@.yanked(),
    {
        match self.selected_task() {
            Some(task) => {
                let title = task.title.clone();
                proof {
                    let i = old(self)@.selected_index()->0;
                    lemma_visible_in_range(self@.tasks, self@.filter, self@.tasks.len());
                    assert(old(self)@.tasks[i as int] == old(self).tasks@[i as int]@);
                }
                self.clipboard = Some(title.clone());
                let ghost before = self.effects@;
                let e = Effect::Copy(title.clone());
                let ghost ev = e;
                self.effects.push(e);
                proof {
                    lemma_effects_push(before, ev);
                }
                let mut message = String::from_str("copied ");
                message.append(title.as_str());
                self.notify(message);
            },
            None => self.reject(),
        }
    }

    /// Redefine palette slots 1-6 (OSC 4).
    fn toggle_contrast(&mut self)
        ensures
            final(self)@ == old(self)@.contrast_toggled(),
    {
        self.high_contrast = !self.high_contrast;
        let ghost before = self.effects@;
        let e = Effect::Palette(self.high_contrast);
        let ghost ev = e;
        self.effects.push(e);
        proof {
            lemma_effects_push(before, ev);
        }
        let mut message = String::from_str("high contrast ");
        message.append(if self.high_contrast { "on" } else { "off" });
        self.notify(message);
    }

    /// The board cursor one lane to the left, stopping at the first.
    fn lane_left(&mut self)
        ensures
            final(self)@ == (AppView { lane: sat_sub(old(self)@.lane, 1), ..old(self)@ }),
    {
        self.lane = if self.lane == 0 {
            0
        } else {
            self.lane - 1
        };
    }

    /// The board cursor one lane to the right, stopping at the last.
    fn lane_right(&mut self)
        requires
            old(self).lane < usize::MAX,
        ensures
            final(self)@ == (AppView { lane: min_nat(old(self)@.lane + 1, 2), ..old(self)@ }),
    {
        self.lane = if self.lane + 1 < 2 {
            self.lane + 1
        } else {
            2
        };
    }

    fn on_key_normal(&mut self, key: Key)
        requires
            old(self).mode is Normal,
            old(self)@.key_lane_ok(key),
        ensures
            final(self)@ == old(self)@.normal_key(key),
    {
        let code = key.code;
        let ctrl = key.ctrl;
        let board = self.tab == Tab::Board;
        let tasks_tab = self.tab == Tab::Tasks;
        if code == KeyCode::Char('q') {
            self.quit = Some(Quit::Normal);
        } else if code == KeyCode::Right && ctrl {
            // Ctrl-arrows are an alternative to Tab/Shift-Tab.
            self.tab = self.tab.next();
        } else if code == KeyCode::Left && ctrl {
            self.tab = self.tab.prev();
        } else if code == KeyCode::Tab {
            self.tab = self.tab.next();
        } else if code == KeyCode::BackTab {
            self.tab = self.tab.prev();
        } else if code == KeyCode::Char('?') || code == KeyCode::F(1) {
            self.mode = Mode::Help;
        } else if code == KeyCode::Char('j') || code == KeyCode::Down {
            self.move_by(1);
        } else if code == KeyCode::Char('k') || code == KeyCode::Up {
            self.move_by(-1);
        } else if code == KeyCode::PageDown {
            self.move_by(self.page_size as i128);
        } else if code == KeyCode::PageUp {
            self.move_by(-(self.page_size as i128));
        } else if code == KeyCode::Home {
            self.move_to_start();
        } else if code == KeyCode::End {
            self.move_to_end();
        } else if (code == KeyCode::Char('h') || code == KeyCode::Left) && board {
            // Board lane movement.
            self.lane_left();
        } else if (code == KeyCode::Char('l') || code == KeyCode::Right) && board {
            self.lane_right();
        } else if code == KeyCode::Char(' ') && tasks_tab {
            self.toggle_done();
        } else if code == KeyCode::Char('d') && tasks_tab {
            if self.selected_task().is_some() {
                self.mode = Mode::ConfirmDelete;
            } else {
                self.reject();
            }
        } else if code == KeyCode::Char('/') && tasks_tab {
            self.mode = Mode::Filter { draft: self.filter.clone() };
        } else if code == KeyCode::Char('y') {
            self.yank();
        } else if code == KeyCode::Char('r') && tasks_tab {
            // Run the selected task: many complete frames, one burst.
            if self.selected_task().is_some() {
                self.mode = Mode::Running { pct: 0 };
            } else {
                self.reject();
            }
        } else if code == KeyCode::Char('T') {
            self.toggle_contrast();
        } else if code == KeyCode::Esc && tasks_tab && !self.filter.as_str().is_empty() {
            self.filter = String::new();
            self.clamp_selection();
        }
    }

    /// Text arriving as one bracketed-paste burst rather than as key presses.
    /// Control characters are stripped: a paste is a value, not a submit.
    pub fn on_paste(&mut self, text: &str)
        ensures
            final(self)@ == old(self)@.on_paste(text@),
    {
        let mut draft = match &self.mode {
            Mode::Filter { draft } => draft.clone(),
            _ => {
                return ;
            },
        };
        let ghost start = draft@;
        let cs = chars_of(text);
        for i in 0..cs.len()
            invariant
                draft@ == start + strip_controls(cs@.take(i as int)),
        {
            assert(cs@.take(i + 1).drop_last() =~= cs@.take(i as int));
            if !is_control(cs[i]) {
                push_char(&mut draft, cs[i]);
                assert(start + strip_controls(cs@.take(i + 1)) =~= (start + strip_controls(
                    cs@.take(i as int),
                )).push(cs@[i as int]));
            }
        }
        assert(cs@.take(cs@.len() as int) =~= cs@);
        self.mode = Mode::Filter { draft };
    }

    /// Advance a run by one step. Returns false once the run is over.
    pub fn step_run(&mut self) -> (r: bool)
        ensures
            final(self)@ == old(self)@.stepped(),
            r == old(self)@.step_continues(),
    {
        let pct = match self.mode {
            Mode::Running { pct } => pct,
            _ => {
                return false;
            },
        };
        if pct >= 100 {
            let visible = self.visible();
            if self.selected < visible.len() {
                let idx = visible[self.selected];
                proof {
                    lemma_visible_in_range(self@.tasks, self@.filter, self@.tasks.len());
                }
                let ghost before = self.tasks@;
                self.tasks[idx].done = true;
                self.tasks[idx].started = false;
                proof {
                    let t = before[idx as int];
                    let t2 = Task { done: true, started: false, ..t };
                    assert(self.tasks@ =~= before.update(idx as int, t2));
                    lemma_tasks_update(before, idx as int, t2);
                }
                let title = self.tasks[idx].title.clone();
                let mut message = String::from_str("finished ");
                message.append(title.as_str());
                self.notify(message);
            }
            self.mode = Mode::Normal;
            self.retitle();
            return false;
        }
        self.mode = Mode::Running { pct: pct + 10 };
        true
    }

    /// Feed one input event through the state machine.
    pub fn on_event(&mut self, event: Event)
        requires
            old(self)@.event_lane_ok(event),
        ensures
            final(self)@ == old(self)@.on_event(event),
    {
        // Whatever happens, the previous frame's transient notice is spent.
        self.toast = None;
        match event {
            Event::Key(key) => self.on_key(key),
            // The list starts below the 3-row tab bar and its own top border.
            Event::MouseLeft { row } => {
                if row >= 4 {
                    self.select_row((row - 4) as usize);
                }
            },
            // Right-click clears an applied filter.
            Event::MouseRight => self.clear_filter(),
            Event::ScrollDown => self.scroll_by(1),
            Event::ScrollUp => self.scroll_by(-1),
            Event::Paste(text) => self.on_paste(text.as_str()),
            Event::Focus(focused) => self.on_focus(focused),
            // The redraw that follows is all a resize needs.
            Event::Other => {},
        }
    }
}

impl App {
    /// Puts `line` at the top of the event log.
    fn log_first(&mut self, line: String)
        ensures
            final(self)@ == (AppView { logs: seq![line@] + old(self)@.logs, ..old(self)@ }),
    {
        let ghost before = self.logs@;
        let ghost lv = line@;
        self.logs.insert(0, line);
        proof {
            assert(strings_view(self.logs@) =~= seq![lv] + strings_view(before));
        }
    }

    /// Logs the outcome of the `DECRQM` probe for synchronized output.
    pub fn record_sync_probe(&mut self, supported: bool)
        ensures
            final(self)@ == (AppView {
                logs: seq![
                    "[000] DECRQM ?2026 supported: "@ + if supported {
                        "yes"@
                    } else {
                        "no"@
                    },
                ] + old(self)@.logs,
                ..old(self)@
            }),
    {
        let mut line = String::from_str("[000] DECRQM ?2026 supported: ");
        line.append(if supported { "yes" } else { "no" });
        self.log_first(line);
    }

    /// Logs how many of the startup capability probes were answered.
    pub fn record_capability_probes(&mut self, answered: usize, total: usize)
        ensures
            final(self)@ == (AppView {
                logs: seq![
                    "[000] capability probes: "@ + decimal(answered as nat) + "/"@ + decimal(
                        total as nat,
                    ),
                ] + old(self)@.logs,
                ..old(self)@
            }),
    {
        let mut line = String::from_str("[000] capability probes: ");
        push_decimal(&mut line, answered as u64);
        line.append("/");
        push_decimal(&mut line, total as u64);
        self.log_first(line);
    }

    /// SIGTERM arrived (`terminate`): unless the app is already quitting,
    /// it starts winding down, so the next frame says so; returns whether
    /// that happened.
    pub fn begin_shutdown(&mut self, terminate: bool) -> (r: bool)
        ensures
            r == (terminate && old(self).quit is None),
            final(self)@ == (AppView { shutting_down: old(self)@.shutting_down || r, ..old(self)@ }),
    {
        if terminate && self.quit.is_none() {
            self.shutting_down = true;
            true
        } else {
            false
        }
    }

    /// Whether a run is in progress (the loop then paints it back to back).
    pub fn is_running(&self) -> (r: bool)
        ensures
            r == (self@.mode is Running),
    {
        match self.mode {
            Mode::Running { .. } => true,
            _ => false,
        }
    }

    /// One round of the event loop, given what polling delivered and whether
    /// SIGTERM has arrived.
    pub fn tick(&mut self, event: Option<Event>, terminate: bool) -> (r: Tick)
        requires
            event matches Some(e) ==> old(self)@.event_lane_ok(e),
        ensures
            final(self)@ == old(self)@.ticked(event, terminate),
            r == old(self)@.tick_result(event, terminate),
    {
        if event.is_none() && !terminate {
            return Tick::Idle;
        }
        match event {
            Some(e) => self.on_event(e),
            None => {},
        }
        if self.begin_shutdown(terminate) {
            return Tick::Finish(Quit::Terminated);
        }
        match self.quit {
            Some(q) => Tick::Finish(q),
            None => Tick::Redraw,
        }
    }

    /// Hands out the pending effects, in order, leaving none behind.
    pub fn take_effects(&mut self) -> (r: Vec<Effect>)
        ensures
            r@ == old(self).effects@,
            final(self)@ == (AppView { effects: Seq::empty(), ..old(self)@ }),
    {
        let mut taken: Vec<Effect> = Vec::new();
        std::mem::swap(&mut taken, &mut self.effects);
        proof {
            assert(effects_view(self.effects@) =~= Seq::<EffectView>::empty());
        }
        taken
    }
}

/// The views of a pushed sequence of effects.
pub proof fn lemma_effects_push(v: Seq<Effect>, e: Effect)
    ensures
        effects_view(v.push(e)) == effects_view(v).push(e@),
{
    assert(effects_view(v.push(e)) =~= effects_view(v).push(e@));
}

/// The views of an updated sequence of tasks.
pub proof fn lemma_tasks_update(v: Seq<Task>, i: int, t: Task)
    requires
        0 <= i < v.len(),
    ensures
        tasks_view(v.update(i, t)) == tasks_view(v).update(i, t@),
{
    assert(tasks_view(v.update(i, t)) =~= tasks_view(v).update(i, t@));
}

/// The views of a sequence of tasks with one removed.
pub proof fn lemma_tasks_remove(v: Seq<Task>, i: int)
    requires
        0 <= i < v.len(),
    ensures
        tasks_view(v.remove(i)) == tasks_view(v).remove(i),
{
    assert(tasks_view(v.remove(i)) =~= tasks_view(v).remove(i));
}

/// Every visible index is the index of a task.
pub proof fn lemma_visible_in_range(tasks: Seq<TaskView>, filter: Seq<char>, k: nat)
    requires
        k <= tasks.len(),
    ensures
        forall|m: int|
            0 <= m < visible_upto(tasks, filter, k).len() ==> #[trigger] visible_upto(
                tasks,
                filter,
                k,
            )[m] < k,
        visible_upto(tasks, filter, k).len() <= k,
    decreases k,
{
    if k > 0 {
        lemma_visible_in_range(tasks, filter, (k - 1) as nat);
    }
}

} // verus!
