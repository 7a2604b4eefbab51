//! What the renderer computes before it draws: the layout, the text of each
//! task row, of the detail pane and of the status bar, titles, counters,
//! selections and cursor positions. The widgets, colours and the static
//! help text are the drawing side's.

use ratatui::layout as rl;
use ratatui::layout::Constraint as Split;
use vstd::prelude::*;

use crate::app::App;
use crate::model::{
    lane_at, lane_title, priority_label, tab_title, Lane, Mode, ModeView, Priority,
    Tab, Task, TaskView,
};
use crate::state::{min_nat, sat_sub, AppView};
use crate::text::{decimal, push_char, push_decimal};

verus! {

/// Below this width the detail pane is dropped and the list goes full-width.
pub const NARROW_WIDTH: u16 = 60;

/// A rectangle of terminal cells.
#[derive(Debug, Clone, Copy, PartialEq, Eq, Structural)]
pub struct Rect {
    pub x: u16,
    pub y: u16,
    pub width: u16,
    pub height: u16,
}

/// `a + b`, or `u16::MAX` where that would not fit.
pub open spec fn sat_add_u16(a: nat, b: nat) -> nat {
    if a + b > 0xffff {
        0xffff
    } else {
        a + b
    }
}

impl Rect {
    /// The first column right of the rectangle (saturating).
    pub open spec fn right_spec(self) -> nat {
        sat_add_u16(self.x as nat, self.width as nat)
    }

    /// The first row below the rectangle (saturating).
    pub open spec fn bottom_spec(self) -> nat {
        sat_add_u16(self.y as nat, self.height as nat)
    }

    pub fn right(self) -> (r: u16)
        ensures
            r == self.right_spec(),
    {
        self.x.saturating_add(self.width)
    }

    pub fn bottom(self) -> (r: u16)
        ensures
            r == self.bottom_spec(),
    {
        self.y.saturating_add(self.height)
    }
}

/// The axis along which an area is split.
#[derive(Debug, Clone, Copy, PartialEq, Eq, Structural)]
pub enum Direction {
    Horizontal,
    Vertical,
}

/// How much of the split axis one part asks for.
#[derive(Debug, Clone, Copy, PartialEq, Eq, Structural)]
pub enum Constraint {
    /// Exactly this many cells.
    Length(u16),
    /// At least this many cells.
    Min(u16),
    /// This percentage of the area.
    Percentage(u16),
    /// This fraction of the area.
    Ratio(u32, u32),
}

/// What ratatui's `Layout::split` returns for these constraints on this area.
pub uninterp spec fn split_areas(direction: Direction, constraints: Seq<Constraint>, area: Rect) -> Seq<Rect>;

/// The four layouts the board uses: the screen's bands (with the filter row
/// open or closed), the Tasks tab's 45/55 columns, the board's three equal
/// lanes, and the two rows of the progress popup.
pub open spec fn board_layout(direction: Direction, constraints: Seq<Constraint>) -> bool {
    ||| direction == Direction::Vertical && constraints == screen_constraints(false)
    ||| direction == Direction::Vertical && constraints == screen_constraints(true)
    ||| direction == Direction::Horizontal && constraints == seq![
        Constraint::Percentage(45),
        Constraint::Percentage(55),
    ]
    ||| direction == Direction::Horizontal && constraints == seq![
        Constraint::Ratio(1, 3),
        Constraint::Ratio(1, 3),
        Constraint::Ratio(1, 3),
    ]
    ||| direction == Direction::Vertical && constraints == seq![
        Constraint::Length(1),
        Constraint::Length(1),
    ]
}

/// Calls ratatui's `Layout::split` (no margin, no spacing, default flex) for
/// one of the board's four layouts. Each of these has a single best
/// solution for every area, so the parts depend on the layout and the area
/// alone; the contract claims that, that there is one part per constraint,
/// and that each part spans the whole area across the split axis. Where
/// along the axis the parts fall is the constraint solver's answer and is
/// left unsaid.
#[verifier::external_body]
fn split(direction: Direction, constraints: &Vec<Constraint>, area: Rect) -> (r: Vec<Rect>)
    requires
        board_layout(direction, constraints@),
    ensures
        r@ == split_areas(direction, constraints@, area),
        r@.len() == constraints@.len(),
        forall|i: int|
            #![trigger r@[i]]
            0 <= i < r@.len() ==> match direction {
                Direction::Horizontal => r@[i].y == area.y && r@[i].height == area.height,
                Direction::Vertical => r@[i].x == area.x && r@[i].width == area.width,
            },
{
    let cs = constraints.iter().map(|c| match *c {
        Constraint::Length(n) => Split::Length(n),
        Constraint::Min(n) => Split::Min(n),
        Constraint::Percentage(n) => Split::Percentage(n),
        Constraint::Ratio(a, b) => Split::Ratio(a, b),
    });
    let layout = match direction {
        Direction::Horizontal => rl::Layout::horizontal(cs),
        Direction::Vertical => rl::Layout::vertical(cs),
    };
    let parts = layout.split(rl::Rect { x: area.x, y: area.y, width: area.width, height: area.height });
    parts.iter().map(|r| Rect { x: r.x, y: r.y, width: r.width, height: r.height }).collect()
}

/// The constraints of the screen: tab bar, content, filter input (one row
/// while a filter is typed, none otherwise) and status bar.
pub open spec fn screen_constraints(filter_open: bool) -> Seq<Constraint> {
    seq![
        Constraint::Length(3),
        Constraint::Min(3),
        Constraint::Length(if filter_open { 1 } else { 0 }),
        Constraint::Length(1),
    ]
}

/// The four horizontal bands of the screen.
#[derive(Debug, Clone, Copy, PartialEq, Eq, Structural)]
pub struct ScreenAreas {
    pub tabs: Rect,
    pub content: Rect,
    pub filter: Rect,
    pub status: Rect,
}

/// Splits the screen into tab bar, content, filter input and status bar.
pub fn screen_areas(area: Rect, filter_open: bool) -> (r: ScreenAreas)
    ensures
        r.tabs == split_areas(Direction::Vertical, screen_constraints(filter_open), area)[0],
        r.content == split_areas(Direction::Vertical, screen_constraints(filter_open), area)[1],
        r.filter == split_areas(Direction::Vertical, screen_constraints(filter_open), area)[2],
        r.status == split_areas(Direction::Vertical, screen_constraints(filter_open), area)[3],
{
    let filter_height: u16 = if filter_open {
        1
    } else {
        0
    };
    let constraints = vec![
        Constraint::Length(3),
        Constraint::Min(3),
        Constraint::Length(filter_height),
        Constraint::Length(1),
    ];
    assert(constraints@ == screen_constraints(filter_open));
    let parts = split(Direction::Vertical, &constraints, area);
    ScreenAreas { tabs: parts[0], content: parts[1], filter: parts[2], status: parts[3] }
}

/// The layout of the Tasks tab: the list, the detail pane when there is
/// room for it, and how many rows a page of the list holds.
#[derive(Debug, Clone, Copy, PartialEq, Eq, Structural)]
pub struct TasksPane {
    pub list: Rect,
    pub detail: Option<Rect>,
    pub page_size: usize,
}

/// The Tasks tab: 45% list and 55% detail side by side, or the list alone
/// on a narrow area; a page is the list's inner height.
pub fn tasks_pane(area: Rect) -> (r: TasksPane)
    ensures
        area.width >= NARROW_WIDTH ==> {
            let parts = split_areas(
                Direction::Horizontal,
                seq![Constraint::Percentage(45), Constraint::Percentage(55)],
                area,
            );
            r.list == parts[0] && r.detail == Some(parts[1])
        },
        area.width < NARROW_WIDTH ==> r.list == area && r.detail is None,
        r.page_size == if area.height > 3 {
            (area.height - 2) as nat
        } else {
            1
        },
{
    if shows_detail(area.width) {
        let constraints = vec![Constraint::Percentage(45), Constraint::Percentage(55)];
        let parts = split(Direction::Horizontal, &constraints, area);
        let list = parts[0];
        TasksPane { list, detail: Some(parts[1]), page_size: page_size_for(list.height) }
    } else {
        TasksPane { list: area, detail: None, page_size: page_size_for(area.height) }
    }
}

/// The three board lanes, side by side, a third of the width each.
pub fn board_lanes(area: Rect) -> (r: Vec<Rect>)
    ensures
        r@ == split_areas(
            Direction::Horizontal,
            seq![Constraint::Ratio(1, 3), Constraint::Ratio(1, 3), Constraint::Ratio(1, 3)],
            area,
        ),
        r@.len() == 3,
{
    let constraints = vec![Constraint::Ratio(1, 3), Constraint::Ratio(1, 3), Constraint::Ratio(1, 3)];
    split(Direction::Horizontal, &constraints, area)
}

/// Inside the progress popup's border: the title row and the gauge row.
pub fn running_rows(popup: Rect) -> (r: (Rect, Rect))
    requires
        popup.x + 1 <= 0xffff,
        popup.y + 1 <= 0xffff,
    ensures
        ({
            let inner = Rect {
                x: (popup.x + 1) as u16,
                y: (popup.y + 1) as u16,
                width: sat_sub(popup.width as nat, 2) as u16,
                height: sat_sub(popup.height as nat, 2) as u16,
            };
            let parts = split_areas(
                Direction::Vertical,
                seq![Constraint::Length(1), Constraint::Length(1)],
                inner,
            );
            r.0 == parts[0] && r.1 == parts[1]
        }),
{
    let inner = Rect {
        x: popup.x + 1,
        y: popup.y + 1,
        width: if popup.width >= 2 {
            popup.width - 2
        } else {
            0
        },
        height: if popup.height >= 2 {
            popup.height - 2
        } else {
            0
        },
    };
    let constraints = vec![Constraint::Length(1), Constraint::Length(1)];
    let parts = split(Direction::Vertical, &constraints, inner);
    (parts[0], parts[1])
}

/// Whether a content area this wide has room for the detail pane.
pub fn shows_detail(width: u16) -> (r: bool)
    ensures
        r == (width >= NARROW_WIDTH),
{
    width >= NARROW_WIDTH
}

/// How many rows a bordered list of this height shows: the height less
/// the two borders, and at least one.
pub fn page_size_for(height: u16) -> (r: usize)
    ensures
        r == if height > 3 {
            (height - 2) as nat
        } else {
            1
        },
{
    let inner = if height >= 2 {
        height - 2
    } else {
        0
    };
    if inner >= 1 {
        inner as usize
    } else {
        1
    }
}

/// Center a fixed-size popup, shrunk to fit the area (which lies on the
/// screen, so its right and bottom edges fit in a `u16`).
pub fn popup_area(area: Rect, width: u16, height: u16) -> (r: Rect)
    requires
        area.x + area.width <= 0xffff,
        area.y + area.height <= 0xffff,
    ensures
        r.width == min_nat(width as nat, area.width as nat),
        r.height == min_nat(height as nat, area.height as nat),
        r.x == area.x + (area.width - r.width) / 2,
        r.y == area.y + (area.height - r.height) / 2,
{
    let width = if width < area.width {
        width
    } else {
        area.width
    };
    let height = if height < area.height {
        height
    } else {
        area.height
    };
    let dx: u16 = (area.width - width) / 2;
    let dy: u16 = (area.height - height) / 2;
    Rect { x: area.x + dx, y: area.y + dy, width, height }
}

/// The status mark in front of a task row.
pub open spec fn task_mark_spec(t: TaskView) -> Seq<char> {
    if t.done {
        "[x] "@
    } else if t.started {
        "[~] "@
    } else {
        "[ ] "@
    }
}

/// `[x] ` for a finished task, `[~] ` for a started one, `[ ] ` otherwise.
pub fn task_mark(task: &Task) -> (r: &'static str)
    ensures
        r@ == task_mark_spec(task@),
{
    if task.done {
        "[x] "
    } else if task.started {
        "[~] "
    } else {
        "[ ] "
    }
}

/// The status word of the detail pane.
pub open spec fn task_status_spec(t: TaskView) -> Seq<char> {
    if t.done {
        "done"@
    } else if t.started {
        "doing"@
    } else {
        "open"@
    }
}

/// `done`, `doing` or `open`.
pub fn task_status(task: &Task) -> (r: &'static str)
    ensures
        r@ == task_status_spec(task@),
{
    if task.done {
        "done"
    } else if task.started {
        "doing"
    } else {
        "open"
    }
}

/// `s` followed by spaces up to `width` characters.
pub open spec fn pad_right(s: Seq<char>, width: nat) -> Seq<char> {
    if s.len() >= width {
        s
    } else {
        s + Seq::new((width - s.len()) as nat, |_i: int| ' ')
    }
}

/// The priority column of a task row: the label left-aligned in four
/// columns, then a space (`format!("{:<4} ", label)`).
pub fn priority_cell(priority: Priority) -> (r: String)
    ensures
        r@ == pad_right(priority_label(priority), 4) + " "@,
{
    let mut out = String::from_str(priority.label());
    let ghost label = out@;
    match priority {
        Priority::High => {},
        _ => push_char(&mut out, ' '),
    }
    proof {
        reveal_strlit("low");
        reveal_strlit("med");
        reveal_strlit("HIGH");
        assert(Seq::new(1, |_i: int| ' ') =~= seq![' ']);
        assert(out@ =~= pad_right(label, 4));
    }
    out.append(" ");
    out
}

/// The title of the task list: ` tasks (N) `, marked when a filter applies.
pub fn tasks_title(count: usize, filtered: bool) -> (r: String)
    ensures
        r@ == " tasks ("@ + decimal(count as nat) + if filtered {
            ") filtered "@
        } else {
            ") "@
        },
{
    let mut out = String::from_str(" tasks (");
    push_decimal(&mut out, count as u64);
    out.append(if filtered { ") filtered " } else { ") " });
    out
}

/// Strings joined with a separator.
pub open spec fn joined(items: Seq<Seq<char>>, sep: Seq<char>) -> Seq<char>
    decreases items.len(),
{
    if items.len() == 0 {
        Seq::empty()
    } else if items.len() == 1 {
        items[0]
    } else {
        joined(items.drop_last(), sep) + sep + items.last()
    }
}

/// The tags of a task, joined with `, `.
pub fn tags_line(task: &Task) -> (r: String)
    ensures
        r@ == joined(task@.tags, ", "@),
{
    let mut out = String::new();
    let n = task.tags.len();
    for i in 0..n
        invariant
            n == task@.tags.len(),
            out@ == joined(task@.tags.take(i as int), ", "@),
    {
        assert(task@.tags.take(i + 1).drop_last() =~= task@.tags.take(i as int));
        assert(task@.tags[i as int] == task.tags@[i as int]@);
        if i != 0 {
            out.append(", ");
        } else {
            assert(task@.tags.take(0) =~= Seq::<Seq<char>>::empty());
        }
        out.append(task.tags[i].as_str());
    }
    assert(task@.tags.take(n as int) =~= task@.tags);
    out
}

/// Where the link label of the detail pane lands: inside the border, after
/// the nine-column field label, on body row `link_row`; `None` where that
/// row falls on or past the bottom border.
pub fn link_hint_at(area: Rect, link_row: usize) -> (r: Option<(u16, u16)>)
    requires
        area.x + 10 <= 0xffff,
        area.y + 1 + link_row <= 0xffff,
    ensures
        r == if area.y + 1 + link_row < sat_sub(area.bottom_spec(), 1) {
            Some(((area.x + 10) as u16, (area.y + 1 + link_row) as u16))
        } else {
            None
        },
{
    // Inside the block's border: +1 for the border, +9 for the label.
    let x = area.x + 1 + 9;
    let y = area.y + 1 + link_row as u16;
    let bottom = area.bottom();
    let limit = if bottom >= 1 {
        bottom - 1
    } else {
        0
    };
    if y < limit {
        Some((x, y))
    } else {
        None
    }
}

/// Where the text cursor sits in the filter input: after the `/` prompt
/// and the draft, kept inside the area (on its last column however long
/// the draft is).
pub fn filter_cursor_x(area: Rect, draft_len: usize) -> (r: u16)
    ensures
        r == min_nat((area.x + 1 + draft_len) as nat, sat_sub(area.right_spec(), 1)),
{
    let right = area.right();
    let limit: u16 = if right >= 1 {
        right - 1
    } else {
        0
    };
    let x = area.x as usize;
    if x < limit as usize && draft_len < (limit as usize) - x - 1 {
        (x + 1 + draft_len) as u16
    } else {
        limit
    }
}

/// The title of a board lane: ` todo (N) `.
pub fn lane_block_title(lane: Lane, count: usize) -> (r: String)
    ensures
        r@ == " "@ + lane_title(lane) + " ("@ + decimal(count as nat) + ") "@,
{
    let mut out = String::from_str(" ");
    out.append(lane.title());
    out.append(" (");
    push_decimal(&mut out, count as u64);
    out.append(") ");
    out
}

/// The highlighted row of a list of `len` rows: the cursor, kept on the
/// last row.
pub fn list_selection(cursor: usize, len: usize) -> (r: usize)
    ensures
        r == min_nat(cursor as nat, sat_sub(len as nat, 1)),
{
    let last = if len == 0 {
        0
    } else {
        len - 1
    };
    if cursor < last {
        cursor
    } else {
        last
    }
}

/// The highlighted row of a board lane: only the focused, non-empty lane
/// has one.
pub fn board_selection(focused: bool, cursor: usize, len: usize) -> (r: Option<usize>)
    ensures
        r == if focused && len > 0 {
            Some(min_nat(cursor as nat, (len - 1) as nat) as usize)
        } else {
            None::<usize>
        },
{
    if focused && len > 0 {
        Some(list_selection(cursor, len))
    } else {
        None
    }
}

/// The title of the log list: ` logs (N) `.
pub fn logs_title(count: usize) -> (r: String)
    ensures
        r@ == " logs ("@ + decimal(count as nat) + ") "@,
{
    let mut out = String::from_str(" logs (");
    push_decimal(&mut out, count as u64);
    out.append(") ");
    out
}

/// The title of the progress popup: ` running N% `.
pub fn running_title(pct: u8) -> (r: String)
    ensures
        r@ == " running "@ + decimal(pct as nat) + "% "@,
{
    let mut out = String::from_str(" running ");
    push_decimal(&mut out, pct as u64);
    out.append("% ");
    out
}

/// `n` full blocks.
pub fn bar(n: usize) -> (r: String)
    ensures
        r@ == Seq::new(n as nat, |_i: int| '█'),
{
    let mut out = String::new();
    for i in 0..n
        invariant
            out@ == Seq::new(i as nat, |_i: int| '█'),
    {
        push_char(&mut out, '█');
        assert(out@ =~= Seq::new((i + 1) as nat, |_i: int| '█'));
    }
    out
}

/// The lane counts of the stats tab: `N todo, N doing, N done`.
pub fn lanes_summary(app: &App) -> (r: String)
    ensures
        r@ == decimal(app@.lane_tasks(Lane::Todo).len()) + " todo, "@ + decimal(
            app@.lane_tasks(Lane::Doing).len(),
        ) + " doing, "@ + decimal(app@.lane_tasks(Lane::Done).len()) + " done"@,
{
    let mut out = String::new();
    push_decimal(&mut out, app.lane_tasks(Lane::Todo).len() as u64);
    out.append(" todo, ");
    push_decimal(&mut out, app.lane_tasks(Lane::Doing).len() as u64);
    out.append(" doing, ");
    push_decimal(&mut out, app.lane_tasks(Lane::Done).len() as u64);
    out.append(" done");
    out
}

/// The mode badge of the status bar.
pub open spec fn status_mode_spec(s: AppView) -> Seq<char> {
    if s.shutting_down {
        "SAVING"@
    } else {
        match s.mode {
            ModeView::Normal => "NORMAL"@,
            ModeView::Filter { .. } => "FILTER"@,
            ModeView::ConfirmDelete => "CONFIRM"@,
            ModeView::Help => "HELP"@,
            ModeView::Running { .. } => "RUNNING"@,
        }
    }
}

/// `SAVING` while shutting down, otherwise the mode's name.
pub fn status_mode(app: &App) -> (r: &'static str)
    ensures
        r@ == status_mode_spec(app@),
{
    if app.shutting_down {
        "SAVING"
    } else {
        match app.mode {
            Mode::Normal => "NORMAL",
            Mode::Filter { .. } => "FILTER",
            Mode::ConfirmDelete => "CONFIRM",
            Mode::Help => "HELP",
            Mode::Running { .. } => "RUNNING",
        }
    }
}

/// The cursor position of the status bar: `row/rows` of the current list
/// (with the lane name on the board), `-` on the stats tab.
pub open spec fn status_position_spec(s: AppView) -> Seq<char> {
    match s.tab {
        Tab::Tasks => {
            let len = s.visible().len();
            let shown: nat = if len == 0 {
                0
            } else {
                s.selected + 1
            };
            decimal(shown) + "/"@ + decimal(len)
        },
        Tab::Board => {
            let len = s.lane_tasks(lane_at(s.lane)).len();
            let shown: nat = if len == 0 {
                0
            } else {
                min_nat(s.selected, (len - 1) as nat) + 1
            };
            lane_title(lane_at(s.lane)) + " "@ + decimal(shown) + "/"@ + decimal(len)
        },
        Tab::Logs => decimal(s.log_offset + 1) + "/"@ + decimal(s.logs.len()),
        Tab::Stats => "-"@,
    }
}

pub fn status_position(app: &App) -> (r: String)
    requires
        app.tab == Tab::Board ==> app.lane < 3,
        app.tab == Tab::Tasks ==> app.selected < usize::MAX,
        app.tab == Tab::Logs ==> app.log_offset < usize::MAX,
    ensures
        r@ == status_position_spec(app@),
{
    match app.tab {
        Tab::Tasks => {
            let len = app.visible().len();
            let shown = if len == 0 {
                0
            } else {
                app.selected + 1
            };
            let mut out = String::new();
            push_decimal(&mut out, shown as u64);
            out.append("/");
            push_decimal(&mut out, len as u64);
            out
        },
        Tab::Board => {
            let lane = Lane::at(app.lane);
            let len = app.lane_tasks(lane).len();
            let shown = if len == 0 {
                0
            } else {
                list_selection(app.selected, len) + 1
            };
            let mut out = String::from_str(lane.title());
            out.append(" ");
            push_decimal(&mut out, shown as u64);
            out.append("/");
            push_decimal(&mut out, len as u64);
            out
        },
        Tab::Logs => {
            let mut out = String::new();
            push_decimal(&mut out, (app.log_offset + 1) as u64);
            out.append("/");
            push_decimal(&mut out, app.logs.len() as u64);
            out
        },
        Tab::Stats => String::from_str("-"),
    }
}

/// The tab label as the status bar shows it: ` Tasks `.
pub fn status_tab(tab: Tab) -> (r: String)
    ensures
        r@ == " "@ + tab_title(tab) + " "@,
{
    let mut out = String::from_str(" ");
    out.append(tab.title());
    out.append(" ");
    out
}

/// The characters of each labelled string, labels kept.
pub open spec fn labelled_view<K>(v: Seq<(K, String)>) -> Seq<(K, Seq<char>)> {
    v.map_values(|p: (K, String)| (p.0, p.1@))
}

/// The spans of a task row, in order.
#[derive(Debug, Clone, Copy, PartialEq, Eq, Structural)]
pub enum RowPart {
    /// `[x] `, `[~] ` or `[ ] `.
    Mark,
    /// The priority column.
    Priority,
    /// The blinking `! ` badge of an overdue task.
    Overdue,
    /// The title (struck through when done).
    Title,
}

/// A task row: mark, priority column, the overdue badge when overdue, and
/// the title.
pub open spec fn task_row_spec(t: TaskView) -> Seq<(RowPart, Seq<char>)> {
    seq![
        (RowPart::Mark, task_mark_spec(t)),
        (RowPart::Priority, pad_right(priority_label(t.priority), 4) + " "@),
    ] + if t.overdue {
        seq![(RowPart::Overdue, "! "@)]
    } else {
        Seq::empty()
    } + seq![(RowPart::Title, t.title)]
}

/// The spans of the list row for one task.
pub fn task_row(task: &Task) -> (r: Vec<(RowPart, String)>)
    ensures
        labelled_view(r@) == task_row_spec(task@),
{
    let mut row: Vec<(RowPart, String)> = Vec::new();
    row.push((RowPart::Mark, String::from_str(task_mark(task))));
    row.push((RowPart::Priority, priority_cell(task.priority)));
    if task.overdue {
        row.push((RowPart::Overdue, String::from_str("! ")));
    }
    row.push((RowPart::Title, task.title.clone()));
    assert(labelled_view(row@) =~= task_row_spec(task@));
    row
}

/// The lines of the detail pane, in order.
#[derive(Debug, Clone, Copy, PartialEq, Eq, Structural)]
pub enum DetailField {
    Title,
    Status,
    Priority,
    Tags,
    /// Concealed (`SGR 8`): a real terminal hides it.
    Secret,
    /// The hyperlink label, re-emitted wrapped in `OSC 8`.
    Link,
    Blank,
    Notes,
}

/// The characters of each detail line: field, label, value, concealed.
pub open spec fn detail_view(v: Seq<(DetailField, String, String, bool)>) -> Seq<
    (DetailField, Seq<char>, Seq<char>, bool),
> {
    v.map_values(|l: (DetailField, String, String, bool)| (l.0, l.1@, l.2@, l.3))
}

/// The detail pane of a task: title, status, priority and tags; the secret
/// (concealed) when there is one; the link label when there is a link;
/// then a blank line and the notes. Only the secret is concealed.
pub open spec fn detail_lines_spec(t: TaskView) -> Seq<(DetailField, Seq<char>, Seq<char>, bool)> {
    seq![
        (DetailField::Title, "title    "@, t.title, false),
        (DetailField::Status, "status   "@, task_status_spec(t), false),
        (DetailField::Priority, "priority "@, priority_label(t.priority), false),
        (DetailField::Tags, "tags     "@, joined(t.tags, ", "@), false),
    ] + match t.secret {
        Some(secret) => seq![(DetailField::Secret, "secret   "@, secret, true)],
        None => Seq::empty(),
    } + if t.url is Some {
        seq![(DetailField::Link, "link     "@, "open ref"@, false)]
    } else {
        Seq::empty()
    } + seq![
        (DetailField::Blank, Seq::empty(), Seq::empty(), false),
        (DetailField::Notes, Seq::empty(), t.notes, false),
    ]
}

/// The lines of the detail pane for a task.
pub fn detail_lines(task: &Task) -> (r: Vec<(DetailField, String, String, bool)>)
    ensures
        detail_view(r@) == detail_lines_spec(task@),
{
    let mut lines: Vec<(DetailField, String, String, bool)> = Vec::new();
    lines.push((DetailField::Title, String::from_str("title    "), task.title.clone(), false));
    lines.push(
        (
            DetailField::Status,
            String::from_str("status   "),
            String::from_str(task_status(task)),
            false,
        ),
    );
    lines.push(
        (
            DetailField::Priority,
            String::from_str("priority "),
            String::from_str(task.priority.label()),
            false,
        ),
    );
    lines.push((DetailField::Tags, String::from_str("tags     "), tags_line(task), false));
    match &task.secret {
        Some(secret) => {
            lines.push((DetailField::Secret, String::from_str("secret   "), secret.clone(), true));
        },
        None => {},
    }
    if task.url.is_some() {
        lines.push(
            (DetailField::Link, String::from_str("link     "), String::from_str("open ref"), false),
        );
    }
    lines.push((DetailField::Blank, String::new(), String::new(), false));
    lines.push((DetailField::Notes, String::new(), task.notes.clone(), false));
    assert(detail_view(lines@) =~= detail_lines_spec(task@));
    lines
}

/// Which body row of the detail pane holds the link label: after the four
/// fixed rows and the secret, when there is a link.
pub open spec fn detail_link_row_spec(t: TaskView) -> Option<nat> {
    if t.url is Some {
        Some(
            if t.secret is Some {
                5nat
            } else {
                4nat
            },
        )
    } else {
        None
    }
}

pub fn detail_link_row(task: &Task) -> (r: Option<usize>)
    ensures
        match detail_link_row_spec(task@) {
            Some(row) => r == Some(row as usize),
            None => r is None,
        },
{
    if task.url.is_some() {
        Some(
            if task.secret.is_some() {
                5
            } else {
                4
            },
        )
    } else {
        None
    }
}

/// Where the detail pane of a task drawn in `area` puts its link label, and
/// the link: the cell after the field label on the link's row, when that row
/// lies inside the pane's border.
pub fn detail_link_hint(task: &Task, area: Rect) -> (r: Option<(u16, u16, String, String)>)
    requires
        area.x + 10 <= 0xffff,
        area.y + 6 <= 0xffff,
    ensures
        match (detail_link_row_spec(task@), task@.url) {
            (Some(row), Some(url)) => if area.y + 1 + row < sat_sub(area.bottom_spec(), 1) {
                r matches Some((x, y, label, link)) && x == area.x + 10 && y == area.y + 1 + row
                    && label@ == "open ref"@ && link@ == url
            } else {
                r is None
            },
            _ => r is None,
        },
{
    match (detail_link_row(task), &task.url) {
        (Some(row), Some(url)) => match link_hint_at(area, row) {
            Some((x, y)) => Some((x, y, String::from_str("open ref"), url.clone())),
            None => None,
        },
        _ => None,
    }
}

/// The segments of the status bar, in order.
#[derive(Debug, Clone, Copy, PartialEq, Eq, Structural)]
pub enum Segment {
    /// The mode badge (dimmed while the window is unfocused).
    Mode,
    Tab,
    Position,
    /// The applied filter, when there is one.
    Filter,
    /// `HC`, while the high-contrast palette is on.
    Contrast,
    /// The transient notice, when there is one.
    Toast,
    Help,
}

/// The status bar: mode badge, tab, position; the filter, the high-contrast
/// marker and the notice where they apply; the key hint.
pub open spec fn status_segments_spec(s: AppView) -> Seq<(Segment, Seq<char>)> {
    seq![
        (Segment::Mode, " "@ + status_mode_spec(s) + " "@),
        (Segment::Tab, " "@ + tab_title(s.tab) + " "@),
        (Segment::Position, status_position_spec(s) + " "@),
    ] + if s.filter.len() > 0 {
        seq![(Segment::Filter, "filter:"@ + s.filter + " "@)]
    } else {
        Seq::empty()
    } + if s.high_contrast {
        seq![(Segment::Contrast, "HC "@)]
    } else {
        Seq::empty()
    } + match s.toast {
        Some(t) => seq![(Segment::Toast, "· "@ + t + " "@)],
        None => Seq::empty(),
    } + seq![(Segment::Help, "? help  q quit"@)]
}

/// The text of the status bar, segment by segment.
pub fn status_segments(app: &App) -> (r: Vec<(Segment, String)>)
    requires
        app.tab == Tab::Board ==> app.lane < 3,
        app.tab == Tab::Tasks ==> app.selected < usize::MAX,
        app.tab == Tab::Logs ==> app.log_offset < usize::MAX,
    ensures
        labelled_view(r@) == status_segments_spec(app@),
{
    let mut out: Vec<(Segment, String)> = Vec::new();
    let mut mode = String::from_str(" ");
    mode.append(status_mode(app));
    mode.append(" ");
    out.push((Segment::Mode, mode));
    out.push((Segment::Tab, status_tab(app.tab)));
    let mut position = status_position(app);
    position.append(" ");
    out.push((Segment::Position, position));
    if !app.filter.as_str().is_empty() {
        let mut filter = String::from_str("filter:");
        filter.append(app.filter.as_str());
        filter.append(" ");
        out.push((Segment::Filter, filter));
    }
    if app.high_contrast {
        out.push((Segment::Contrast, String::from_str("HC ")));
    }
    match &app.toast {
        Some(toast) => {
            let mut notice = String::from_str("· ");
            notice.append(toast.as_str());
            notice.append(" ");
            out.push((Segment::Toast, notice));
        },
        None => {},
    }
    out.push((Segment::Help, String::from_str("? help  q quit")));
    assert(labelled_view(out@) =~= status_segments_spec(app@));
    out
}

/// The mode badge is dimmed while the terminal reports the window
/// unfocused (mode 1004).
pub fn status_badge_dimmed(app: &App) -> (r: bool)
    ensures
        r == !app@.focused,
{
    !app.focused
}

/// How a task is drawn besides its text: toned by its lane (done, being
/// done, to do) and struck through exactly when done.
#[derive(Debug, Clone, Copy, PartialEq, Eq, Structural)]
pub struct TaskLook {
    pub tone: Lane,
    pub struck: bool,
}

/// The tone and strike-through of a task's row, board card and status.
pub fn task_look(task: &Task) -> (r: TaskLook)
    ensures
        r.tone == crate::model::lane_of(task@),
        r.struck == task@.done,
{
    TaskLook { tone: task.lane(), struck: task.done }
}

/// Whether board column `column` is the one with the cursor (its border is
/// highlighted and it alone shows a selection).
pub fn lane_focused(app: &App, column: usize) -> (r: bool)
    ensures
        r == (column == app.lane),
{
    column == app.lane
}

} // verus!
