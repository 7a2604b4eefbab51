//! Properties of the board that span operations or hold of every state.

use vstd::prelude::*;

use crate::escape::{
    b64_chunk, b64_decode_quad, b64_digit, b64_value, base64_decode_spec, base64_spec,
    is_b64_digit_char,
};
use crate::model::{
    lane_of, tab_next, tab_prev, Event, Key, KeyCode, Lane, Tick,
    ModeView, Quit, Tab, TaskView,
};
use crate::state::{
    in_lane, keeps, visible_upto, count_done, AppView,
};
use crate::text::{is_control_spec, lowercase, strip_controls};
use crate::ui::status_mode_spec;

verus! {

// ------------------------------------------------------------------ tabs

/// Switching to the next tab and back again returns to the same tab, in
/// either order.
pub proof fn law_tab_next_prev_inverse(t: Tab)
    ensures
        tab_prev(tab_next(t)) == t,
        tab_next(tab_prev(t)) == t,
{
}

/// Four steps to the right go once round the tab bar.
pub proof fn law_tabs_cycle(t: Tab)
    ensures
        tab_next(tab_next(tab_next(tab_next(t)))) == t,
{
}

// -------------------------------------------------------------- visible

/// The visible indices are strictly increasing and each is the index of a
/// task (of which there are no more than a `Vec` holds).
pub proof fn law_visible_sorted_in_range(s: AppView)
    requires
        s.tasks.len() <= usize::MAX,
    ensures
        forall|i: int| 0 <= i < s.visible().len() ==> #[trigger] s.visible()[i] < s.tasks.len(),
        forall|i: int, j: int|
            0 <= i < j < s.visible().len() ==> #[trigger] s.visible()[i] < #[trigger] s.visible()[j],
        s.visible().len() <= s.tasks.len(),
{
    lemma_visible_sorted(s.tasks, s.filter, s.tasks.len());
}

proof fn lemma_visible_sorted(tasks: Seq<TaskView>, filter: Seq<char>, k: nat)
    requires
        k <= usize::MAX,
    ensures
        forall|i: int|
            0 <= i < visible_upto(tasks, filter, k).len() ==> #[trigger] visible_upto(
                tasks,
                filter,
                k,
            )[i] < k,
        forall|i: int, j: int|
            0 <= i < j < visible_upto(tasks, filter, k).len() ==> #[trigger] visible_upto(
                tasks,
                filter,
                k,
            )[i] < #[trigger] visible_upto(tasks, filter, k)[j],
        visible_upto(tasks, filter, k).len() <= k,
    decreases k,
{
    if k > 0 {
        let p = visible_upto(tasks, filter, (k - 1) as nat);
        lemma_visible_sorted(tasks, filter, (k - 1) as nat);
        let v = visible_upto(tasks, filter, k);
        if keeps(tasks[k - 1], filter) {
            assert(v == p.push((k - 1) as usize));
            assert forall|i: int, j: int| 0 <= i < j < v.len() implies #[trigger] v[i] < #[trigger] v[j] by {
                if j == v.len() - 1 {
                    assert(v[i] == p[i]);
                    assert(v[j] == (k - 1) as usize);
                    assert(p[i] < k - 1);
                } else {
                    assert(v[i] == p[i] && v[j] == p[j]);
                }
            }
        }
    }
}

/// With no filter applied, every task is visible, in order.
pub proof fn law_no_filter_shows_all(s: AppView)
    requires
        s.filter.len() == 0,
    ensures
        s.visible() == Seq::new(s.tasks.len(), |i: int| i as usize),
{
    lemma_all_visible(s.tasks, s.filter, s.tasks.len());
}

proof fn lemma_all_visible(tasks: Seq<TaskView>, filter: Seq<char>, k: nat)
    requires
        filter.len() == 0,
    ensures
        visible_upto(tasks, filter, k) == Seq::new(k, |i: int| i as usize),
    decreases k,
{
    if k > 0 {
        lemma_all_visible(tasks, filter, (k - 1) as nat);
        assert(visible_upto(tasks, filter, k) =~= Seq::new(k, |i: int| i as usize));
    }
}

/// Whether two task lists agree on everything the filter reads.
pub open spec fn same_filter_text(a: Seq<TaskView>, b: Seq<TaskView>) -> bool {
    &&& a.len() == b.len()
    &&& forall|i: int|
        0 <= i < a.len() ==> (#[trigger] a[i]).title == b[i].title && a[i].tags == b[i].tags
}

/// The visible list depends only on titles, tags and the filter.
pub proof fn lemma_visible_same_text(a: Seq<TaskView>, b: Seq<TaskView>, filter: Seq<char>, k: nat)
    requires
        same_filter_text(a, b),
        k <= a.len(),
    ensures
        visible_upto(a, filter, k) == visible_upto(b, filter, k),
    decreases k,
{
    if k > 0 {
        lemma_visible_same_text(a, b, filter, (k - 1) as nat);
        assert(a[k - 1].title == b[k - 1].title && a[k - 1].tags == b[k - 1].tags);
        assert(keeps(a[k - 1], filter) == keeps(b[k - 1], filter));
    }
}

// ---------------------------------------------------------------- lanes

proof fn lemma_in_lane_len(tasks: Seq<TaskView>, idxs: Seq<usize>, lane: Lane)
    ensures
        in_lane(tasks, idxs, lane).len() <= idxs.len(),
    decreases idxs.len(),
{
    if idxs.len() > 0 {
        lemma_in_lane_len(tasks, idxs.drop_last(), lane);
    }
}

proof fn lemma_in_lane_contains(tasks: Seq<TaskView>, idxs: Seq<usize>, lane: Lane, x: usize)
    ensures
        in_lane(tasks, idxs, lane).contains(x) <==> idxs.contains(x) && lane_of(tasks[x as int])
            == lane,
    decreases idxs.len(),
{
    if idxs.len() > 0 {
        let rest = idxs.drop_last();
        lemma_in_lane_contains(tasks, rest, lane, x);
        assert(idxs =~= rest.push(idxs.last()));
        assert(idxs.contains(x) <==> rest.contains(x) || x == idxs.last()) by {
            if idxs.contains(x) {
                let i = choose|i: int| 0 <= i < idxs.len() && idxs[i] == x;
                if i < idxs.len() - 1 {
                    assert(rest[i] == x);
                }
            }
            if rest.contains(x) {
                let i = choose|i: int| 0 <= i < rest.len() && rest[i] == x;
                assert(idxs[i] == x);
            }
        }
        let r = in_lane(tasks, rest, lane);
        if lane_of(tasks[idxs.last() as int]) == lane {
            assert(r.push(idxs.last()).contains(x) <==> r.contains(x) || x == idxs.last()) by {
                if r.push(idxs.last()).contains(x) {
                    let i = choose|i: int| 0 <= i < r.len() + 1 && r.push(idxs.last())[i] == x;
                    if i < r.len() {
                        assert(r[i] == x);
                    }
                }
                if r.contains(x) {
                    let i = choose|i: int| 0 <= i < r.len() && r[i] == x;
                    assert(r.push(idxs.last())[i] == x);
                }
                if x == idxs.last() {
                    assert(r.push(idxs.last())[r.len() as int] == x);
                }
            }
        }
    }
}

proof fn lemma_in_lane_partition_len(tasks: Seq<TaskView>, idxs: Seq<usize>)
    ensures
        in_lane(tasks, idxs, Lane::Todo).len() + in_lane(tasks, idxs, Lane::Doing).len()
            + in_lane(tasks, idxs, Lane::Done).len() == idxs.len(),
    decreases idxs.len(),
{
    if idxs.len() > 0 {
        lemma_in_lane_partition_len(tasks, idxs.drop_last());
    }
}

/// The three board lanes split the visible tasks: together they hold as
/// many entries as the visible list, every visible task is in the lane of
/// its state, and a lane holds only tasks in that state.
pub proof fn law_lanes_partition_visible(s: AppView)
    ensures
        s.lane_tasks(Lane::Todo).len() + s.lane_tasks(Lane::Doing).len() + s.lane_tasks(
            Lane::Done,
        ).len() == s.visible().len(),
        forall|x: usize|
            s.visible().contains(x) <==> #[trigger] s.lane_tasks(lane_of(s.tasks[x as int])).contains(
                x,
            ),
        forall|x: usize, l: Lane| #[trigger]
            s.lane_tasks(l).contains(x) ==> lane_of(s.tasks[x as int]) == l,
{
    lemma_in_lane_partition_len(s.tasks, s.visible());
    assert forall|x: usize|
        s.visible().contains(x) <==> #[trigger] s.lane_tasks(lane_of(s.tasks[x as int])).contains(
            x,
        ) by {
        lemma_in_lane_contains(s.tasks, s.visible(), lane_of(s.tasks[x as int]), x);
    }
    assert forall|x: usize, l: Lane| #[trigger] s.lane_tasks(l).contains(x) implies lane_of(
        s.tasks[x as int],
    ) == l by {
        lemma_in_lane_contains(s.tasks, s.visible(), l, x);
    }
}

// --------------------------------------------------------------- counts

proof fn lemma_count_done_le(tasks: Seq<TaskView>)
    ensures
        count_done(tasks) <= tasks.len(),
    decreases tasks.len(),
{
    if tasks.len() > 0 {
        lemma_count_done_le(tasks.drop_last());
    }
}

/// Every task is either open or done.
pub proof fn law_open_plus_done(s: AppView)
    ensures
        s.open_count() + s.done_count() == s.tasks.len(),
{
    lemma_count_done_le(s.tasks);
}

// ------------------------------------------------------------ invariant

proof fn lemma_clamped_cursors(s: AppView)
    requires
        s.log_offset < s.logs.len(),
        s.lane < 3,
    ensures
        s.clamped().cursors_ok(),
{
}

proof fn lemma_moved_by_cursors(s: AppView, delta: int)
    requires
        s.cursors_ok(),
    ensures
        s.moved_by(delta).cursors_ok(),
        s.moved_to_end().cursors_ok(),
        s.with_cursor(0).cursors_ok(),
{
    lemma_in_lane_len(s.tasks, s.visible(), crate::model::lane_at(s.lane));
}

proof fn lemma_toggled(s: AppView)
    ensures
        s.toggled().visible() == s.visible(),
        s.toggled().selected == s.selected,
        s.toggled().logs == s.logs && s.toggled().log_offset == s.log_offset,
        s.toggled().lane == s.lane,
        s.finished_not_started() ==> s.toggled().finished_not_started(),
{
    match s.selected_index() {
        Some(i) => {
            crate::app::lemma_visible_in_range(s.tasks, s.filter, s.tasks.len());
            let t = s.tasks[i as int];
            let done = !t.done;
            let t2 = TaskView { done, started: if done { false } else { t.started }, ..t };
            let tasks2 = s.tasks.update(i as int, t2);
            lemma_visible_same_text(tasks2, s.tasks, s.filter, s.tasks.len());
        },
        None => {},
    }
}

proof fn lemma_stepped(s: AppView)
    ensures
        s.cursors_ok() ==> s.stepped().cursors_ok(),
        s.finished_not_started() ==> s.stepped().finished_not_started(),
{
    match s.mode {
        ModeView::Running { pct } => {
            if pct >= 100 {
                match s.selected_index() {
                    Some(i) => {
                        crate::app::lemma_visible_in_range(s.tasks, s.filter, s.tasks.len());
                        let t = s.tasks[i as int];
                        let tasks2 = s.tasks.update(
                            i as int,
                            TaskView { done: true, started: false, ..t },
                        );
                        lemma_visible_same_text(tasks2, s.tasks, s.filter, s.tasks.len());
                    },
                    None => {},
                }
            }
        },
        _ => {},
    }
}

proof fn lemma_deleted(s: AppView)
    ensures
        s.deleted().logs == s.logs && s.deleted().log_offset == s.log_offset,
        s.deleted().lane == s.lane,
        s.finished_not_started() ==> s.deleted().finished_not_started(),
{
    match s.selected_index() {
        Some(i) => {
            crate::app::lemma_visible_in_range(s.tasks, s.filter, s.tasks.len());
            let r = s.tasks.remove(i as int);
            if s.finished_not_started() {
                assert forall|j: int| 0 <= j < r.len() && #[trigger] r[j].done implies !r[j].started by {
                    if j < i {
                        assert(r[j] == s.tasks[j]);
                    } else {
                        assert(r[j] == s.tasks[j + 1]);
                    }
                }
            }
        },
        None => {},
    }
}

proof fn lemma_normal_key_cursors(s: AppView, key: Key)
    requires
        s.cursors_ok(),
    ensures
        s.normal_key(key).cursors_ok(),
{
    lemma_moved_by_cursors(s, 1);
    lemma_moved_by_cursors(s, -1);
    lemma_moved_by_cursors(s, s.page_size as int);
    lemma_moved_by_cursors(s, -(s.page_size as int));
    lemma_toggled(s);
    lemma_clamped_cursors(AppView { filter: Seq::empty(), ..s });
}

/// Every key press keeps the cursors in their lists: the selection at a
/// visible task (or zero), the log offset at a log line, the board cursor
/// at one of the three lanes.
pub proof fn law_on_key_keeps_cursors(s: AppView, key: Key)
    requires
        s.cursors_ok(),
    ensures
        s.on_key(key).cursors_ok(),
{
    let s0 = AppView { toast: None, ..s };
    assert(s0.visible() == s.visible());
    match s.mode {
        ModeView::Filter { draft } => {
            lemma_clamped_cursors(AppView { filter: draft, mode: ModeView::Normal, ..s0 });
        },
        ModeView::ConfirmDelete => {
            lemma_deleted(s0);
            lemma_clamped_cursors(AppView { mode: ModeView::Normal, ..s0.deleted() });
        },
        ModeView::Normal => {
            lemma_normal_key_cursors(s0, key);
        },
        _ => {},
    }
}

/// Every key press keeps finished tasks out of the Doing lane.
pub proof fn law_on_key_keeps_finished_not_started(s: AppView, key: Key)
    requires
        s.finished_not_started(),
    ensures
        s.on_key(key).finished_not_started(),
{
    let s0 = AppView { toast: None, ..s };
    lemma_toggled(s0);
    lemma_deleted(s0);
}

/// Every key press keeps the state invariant.
pub proof fn law_on_key_keeps_wf(s: AppView, key: Key)
    requires
        s.wf(),
    ensures
        s.on_key(key).wf(),
{
    law_on_key_keeps_cursors(s, key);
    law_on_key_keeps_finished_not_started(s, key);
}

/// The wheel (any distance), a click on any row, clearing the filter, a
/// paste, a focus change and a run step each keep the cursors in their
/// lists.
pub proof fn law_operations_keep_cursors(
    s: AppView,
    delta: int,
    row: nat,
    text: Seq<char>,
    focused: bool,
)
    requires
        s.cursors_ok(),
    ensures
        s.moved_by(delta).cursors_ok(),
        s.row_selected(row).cursors_ok(),
        s.filter_cleared().cursors_ok(),
        s.on_paste(text).cursors_ok(),
        s.on_focus(focused).cursors_ok(),
        s.stepped().cursors_ok(),
{
    lemma_moved_by_cursors(s, delta);
    lemma_clamped_cursors(AppView { filter: Seq::empty(), ..s });
    lemma_stepped(s);
}

/// With the cursors in their lists, the board's lane can be looked up, and
/// a task is selected whenever any task is visible.
pub proof fn law_cursors_ok_consequences(s: AppView)
    requires
        s.cursors_ok(),
    ensures
        s.lane < 3,
        s.visible().len() > 0 ==> s.selected_index() is Some,
{
}

/// Every input event keeps the state invariant.
pub proof fn law_on_event_keeps_wf(s: AppView, event: Event)
    requires
        s.wf(),
    ensures
        s.on_event(event).wf(),
{
    let s0 = AppView { toast: None, ..s };
    assert(s0.visible() == s.visible());
    match event {
        Event::Key(k) => law_on_key_keeps_wf(s0, k),
        Event::MouseRight => lemma_clamped_cursors(AppView { filter: Seq::empty(), ..s0 }),
        Event::ScrollDown => lemma_moved_by_cursors(s0, 1),
        Event::ScrollUp => lemma_moved_by_cursors(s0, -1),
        _ => {},
    }
}

/// Each step of a run keeps the state invariant.
pub proof fn law_step_keeps_wf(s: AppView)
    requires
        s.wf(),
    ensures
        s.stepped().wf(),
{
    lemma_stepped(s);
}

/// Putting a line at the top of the log, draining the effects or starting
/// to wind down keeps the state invariant.
pub proof fn law_bookkeeping_keeps_wf(s: AppView, line: Seq<char>)
    requires
        s.wf(),
    ensures
        (AppView { logs: seq![line] + s.logs, ..s }).wf(),
        (AppView { effects: Seq::empty(), ..s }).wf(),
        (AppView { shutting_down: true, ..s }).wf(),
{
}

// ------------------------------------------------------------------ keys

/// Ctrl-C quits from every state, whatever the mode, changing nothing else
/// but clearing the notice.
pub proof fn law_ctrl_c_always_quits(s: AppView)
    ensures
        s.on_key(Key { code: KeyCode::Char('c'), ctrl: true }) == (AppView {
            quit: Some(Quit::Interrupted),
            toast: None,
            ..s
        }),
{
}

/// A run is not interactive: every key but Ctrl-C is ignored (beyond
/// clearing the notice).
pub proof fn law_running_ignores_keys(s: AppView, key: Key)
    requires
        s.mode is Running,
        !(key.ctrl && key.code == KeyCode::Char('c')),
    ensures
        s.on_key(key) == (AppView { toast: None, ..s }),
{
}

/// While a filter is being typed, the applied filter changes only on
/// Enter; Esc abandons the draft and keeps the applied filter.
pub proof fn law_draft_does_not_apply_until_enter(s: AppView, key: Key)
    requires
        s.mode is Filter,
        key.code != KeyCode::Enter,
    ensures
        s.on_key(key).filter == s.filter,
        key.code == KeyCode::Esc && !key.ctrl ==> s.on_key(key).mode == ModeView::Normal,
{
}

/// Enter in filter mode applies the draft as the filter and returns to
/// normal mode.
pub proof fn law_enter_applies_draft(s: AppView, draft: Seq<char>)
    requires
        s.mode == (ModeView::Filter { draft }),
    ensures
        s.on_key(Key { code: KeyCode::Enter, ctrl: false }).filter == draft,
        s.on_key(Key { code: KeyCode::Enter, ctrl: false }).mode == ModeView::Normal,
{
}

/// Toggling the selected task twice restores its done flag; the whole
/// task list comes back unless the task was started and not done (such a
/// task leaves the board's Doing lane for Todo).
pub proof fn law_toggle_twice(s: AppView)
    requires
        s.wf(),
        s.selected_index() is Some,
    ensures
        s.toggled().toggled().tasks[s.selected_index()->0 as int].done == s.tasks[s.selected_index()->0 as int].done,
        (s.tasks[s.selected_index()->0 as int].done || !s.tasks[s.selected_index()->0 as int].started)
            ==> s.toggled().toggled().tasks == s.tasks,
{
    lemma_toggled(s);
    crate::app::lemma_visible_in_range(s.tasks, s.filter, s.tasks.len());
    let i = s.selected_index()->0 as int;
    let t = s.tasks[i];
    if t.done || !t.started {
        assert(s.toggled().toggled().tasks =~= s.tasks);
    }
}

/// Confirming a delete removes exactly the selected task and says which.
pub proof fn law_delete_removes_selected(s: AppView)
    requires
        s.mode is ConfirmDelete,
        s.selected_index() is Some,
    ensures
        s.on_key(Key { code: KeyCode::Char('y'), ctrl: false }).tasks == s.tasks.remove(
            s.selected_index()->0 as int,
        ),
        s.on_key(Key { code: KeyCode::Char('y'), ctrl: false }).toast == Some(
            "deleted "@ + s.tasks[s.selected_index()->0 as int].title,
        ),
        s.on_key(Key { code: KeyCode::Char('y'), ctrl: false }).mode == ModeView::Normal,
{
}

/// Cancelling a delete keeps every task.
pub proof fn law_cancel_keeps_tasks(s: AppView)
    requires
        s.mode is ConfirmDelete,
    ensures
        s.on_key(Key { code: KeyCode::Char('n'), ctrl: false }).tasks == s.tasks,
        s.on_key(Key { code: KeyCode::Esc, ctrl: false }).tasks == s.tasks,
        s.on_key(Key { code: KeyCode::Char('n'), ctrl: false }).mode == ModeView::Normal,
{
}

// ----------------------------------------------------------------- paste

/// A paste never brings a control character into the draft.
pub proof fn law_paste_has_no_controls(text: Seq<char>)
    ensures
        forall|i: int|
            0 <= i < strip_controls(text).len() ==> !is_control_spec(
                #[trigger] strip_controls(text)[i],
            ),
    decreases text.len(),
{
    if text.len() > 0 {
        law_paste_has_no_controls(text.drop_last());
        let p = strip_controls(text.drop_last());
        if !is_control_spec(text.last()) {
            assert forall|i: int| 0 <= i < p.len() + 1 implies !is_control_spec(
                #[trigger] p.push(text.last())[i],
            ) by {
                if i < p.len() {
                    assert(p.push(text.last())[i] == p[i]);
                }
            }
        }
    }
}

/// A paste of text without control characters extends the draft by
/// exactly that text.
pub proof fn law_plain_paste_is_verbatim(text: Seq<char>)
    requires
        forall|i: int| 0 <= i < text.len() ==> !is_control_spec(#[trigger] text[i]),
    ensures
        strip_controls(text) == text,
    decreases text.len(),
{
    if text.len() > 0 {
        law_plain_paste_is_verbatim(text.drop_last());
        assert(text.drop_last().push(text.last()) =~= text);
    }
}

// ----------------------------------------------------------------- mouse

/// Clicking a row of the task list selects the task shown on that row.
pub proof fn law_click_selects_row(s: AppView, row: nat)
    requires
        s.tab == Tab::Tasks,
        row < s.visible().len(),
    ensures
        s.row_selected(row).selected_index() == Some(s.visible()[row as int]),
{
}

/// Clearing the filter shows every task again, and the selection stays
/// where it was when it still points at a row.
pub proof fn law_clear_filter_shows_all(s: AppView)
    ensures
        s.filter_cleared().visible() == Seq::new(s.tasks.len(), |i: int| i as usize),
        s.selected < s.tasks.len() ==> s.filter_cleared().selected == s.selected,
{
    lemma_all_visible(s.tasks, Seq::empty(), s.tasks.len());
}

// ------------------------------------------------------------------ runs

/// The state after `n` steps of a run.
pub open spec fn run_steps(s: AppView, n: nat) -> AppView
    decreases n,
{
    if n == 0 {
        s
    } else {
        run_steps(s, (n - 1) as nat).stepped()
    }
}

proof fn lemma_run_progress(s: AppView, n: nat)
    requires
        s.mode == (ModeView::Running { pct: 0 }),
        n <= 10,
    ensures
        run_steps(s, n) == (AppView { mode: ModeView::Running { pct: (10 * n) as u8 }, ..s }),
    decreases n,
{
    if n > 0 {
        lemma_run_progress(s, (n - 1) as nat);
    }
}

/// A run started at 0% continues for ten steps (0% to 90%), and the
/// eleventh step ends it: the board is back in normal mode and the task
/// that was selected when the run began is done and no longer started.
pub proof fn law_run_finishes_after_eleven_steps(s: AppView)
    requires
        s.mode == (ModeView::Running { pct: 0 }),
    ensures
        forall|k: nat| k < 10 ==> #[trigger] run_steps(s, k).step_continues(),
        !run_steps(s, 10).step_continues(),
        run_steps(s, 11).mode == ModeView::Normal,
        s.selected_index() matches Some(i) ==> run_steps(s, 11).tasks[i as int].done
            && !run_steps(s, 11).tasks[i as int].started,
{
    assert forall|k: nat| k < 10 implies #[trigger] run_steps(s, k).step_continues() by {
        lemma_run_progress(s, k);
    }
    lemma_run_progress(s, 10);
    let s10 = run_steps(s, 10);
    assert(s10.visible() == s.visible());
    crate::app::lemma_visible_in_range(s.tasks, s.filter, s.tasks.len());
}

/// The frames a run paints back to back: one before each step, and after
/// the step that ends the run, one closing frame (at most `fuel` steps).
pub open spec fn burst_frames(s: AppView, fuel: nat) -> nat
    decreases fuel,
{
    if fuel == 0 {
        0
    } else if s.step_continues() {
        1 + burst_frames(s.stepped(), (fuel - 1) as nat)
    } else {
        2
    }
}

proof fn lemma_burst_frames(s: AppView, k: nat)
    requires
        s.mode == (ModeView::Running { pct: 0 }),
        k <= 10,
    ensures
        burst_frames(run_steps(s, k), (11 - k) as nat) == 12 - k,
    decreases 10 - k,
{
    lemma_run_progress(s, k);
    if k < 10 {
        lemma_burst_frames(s, k + 1);
        assert(run_steps(s, k + 1) == run_steps(s, k).stepped());
    }
}

/// A run started at 0% paints twelve frames: one before each of its eleven
/// steps and a closing one.
pub proof fn law_run_paints_twelve_frames(s: AppView)
    requires
        s.mode == (ModeView::Running { pct: 0 }),
    ensures
        burst_frames(s, 11) == 12,
{
    lemma_burst_frames(s, 0);
}

/// With nothing polled and no SIGTERM, the loop neither changes the board
/// nor repaints.
pub proof fn law_idle_loop_does_nothing(s: AppView)
    ensures
        s.ticked(None, false) == s,
        s.tick_result(None, false) == Tick::Idle,
{
}

/// SIGTERM, while the app is not already quitting, ends the loop after one
/// last frame whose status bar reads SAVING, with the reason that maps to
/// exit code 143.
pub proof fn law_sigterm_paints_saving_and_stops(s: AppView, event: Option<Event>)
    requires
        s.after_input(event).quit is None,
    ensures
        s.tick_result(event, true) == Tick::Finish(Quit::Terminated),
        s.ticked(event, true).shutting_down,
        status_mode_spec(s.ticked(event, true)) == "SAVING"@,
{
}

// ---------------------------------------------------------------- base64

proof fn lemma_base64_len(input: Seq<u8>)
    ensures
        base64_spec(input).len() == 4 * ((input.len() + 2) / 3),
    decreases input.len(),
{
    if input.len() > 0 {
        let k = if input.len() < 3 {
            input.len() as int
        } else {
            3
        };
        lemma_base64_len(input.skip(k));
        assert(b64_chunk(input.take(k)).len() == 4);
    }
}

/// Base64 turns every started group of three bytes into four characters.
pub proof fn law_base64_length(input: Seq<u8>)
    ensures
        base64_spec(input).len() == 4 * ((input.len() + 2) / 3),
{
    lemma_base64_len(input);
}

proof fn lemma_digit_roundtrip(v: nat)
    requires
        v < 64,
    ensures
        is_b64_digit_char(b64_digit(v)),
        b64_value(b64_digit(v)) == v,
        b64_digit(v) != '=',
{
}

proof fn lemma_b64_arith(b0: u32, b1: u32, b2: u32)
    by (bit_vector)
    requires
        b0 < 256,
        b1 < 256,
        b2 < 256,
    ensures
        ((b0 * 65536 + b1 * 256 + b2) / 262144) % 64 * 262144 + ((b0 * 65536 + b1 * 256 + b2)
            / 4096) % 64 * 4096 + ((b0 * 65536 + b1 * 256 + b2) / 64) % 64 * 64 + (b0 * 65536
            + b1 * 256 + b2) % 64 == b0 * 65536 + b1 * 256 + b2,
        (b0 * 65536 + b1 * 256 + b2) / 65536 % 256 == b0,
        (b0 * 65536 + b1 * 256 + b2) / 256 % 256 == b1,
        (b0 * 65536 + b1 * 256 + b2) % 256 == b2,
        b2 == 0 ==> (b0 * 65536 + b1 * 256 + b2) % 64 == 0,
        b1 == 0 && b2 == 0 ==> ((b0 * 65536 + b1 * 256 + b2) / 64) % 64 == 0,
{
}

proof fn lemma_chunk_roundtrip(c: Seq<u8>)
    requires
        1 <= c.len() <= 3,
    ensures
        b64_decode_quad(b64_chunk(c)) == c,
        forall|i: int| 0 <= i < c.len() + 1 ==> is_b64_digit_char(#[trigger] b64_chunk(c)[i]),
        forall|i: int| c.len() + 1 <= i < 4 ==> #[trigger] b64_chunk(c)[i] == '=',
{
    let b0 = c[0] as u32;
    let b1: u32 = if c.len() > 1 {
        c[1] as u32
    } else {
        0
    };
    let b2: u32 = if c.len() > 2 {
        c[2] as u32
    } else {
        0
    };
    lemma_b64_arith(b0, b1, b2);
    let n: nat = (b0 * 65536 + b1 * 256 + b2) as nat;
    let q = b64_chunk(c);
    lemma_digit_roundtrip((n / 262144) % 64);
    lemma_digit_roundtrip((n / 4096) % 64);
    lemma_digit_roundtrip((n / 64) % 64);
    lemma_digit_roundtrip(n % 64);
    assert(b64_value(q[0]) * 262144 + b64_value(q[1]) * 4096 + b64_value(q[2]) * 64 + b64_value(
        q[3],
    ) == n);
    assert(b64_decode_quad(q) =~= c);
}

proof fn lemma_base64_roundtrip(input: Seq<u8>)
    ensures
        base64_decode_spec(base64_spec(input)) == input,
    decreases input.len(),
{
    if input.len() > 0 {
        let k = if input.len() < 3 {
            input.len() as int
        } else {
            3
        };
        let chunk = input.take(k);
        let rest = input.skip(k);
        lemma_base64_roundtrip(rest);
        lemma_chunk_roundtrip(chunk);
        let q = b64_chunk(chunk);
        let tail = base64_spec(rest);
        assert(base64_spec(input) == q + tail);
        assert((q + tail).take(4) =~= q);
        assert((q + tail).skip(4) =~= tail);
        assert(base64_decode_spec(q + tail) == b64_decode_quad(q) + base64_decode_spec(tail));
        assert(chunk + rest =~= input);
    }
}

#[verifier::rlimit(40)]
proof fn lemma_base64_shape(input: Seq<u8>)
    ensures
        forall|i: int|
            0 <= i < base64_spec(input).len() - (3 - input.len() % 3) % 3 ==> is_b64_digit_char(
                #[trigger] base64_spec(input)[i],
            ),
        forall|i: int|
            base64_spec(input).len() - (3 - input.len() % 3) % 3 <= i < base64_spec(input).len()
                ==> #[trigger] base64_spec(input)[i] == '=',
    decreases input.len(),
{
    if input.len() > 0 {
        let k = if input.len() < 3 {
            input.len() as int
        } else {
            3
        };
        let chunk = input.take(k);
        let rest = input.skip(k);
        lemma_base64_shape(rest);
        lemma_base64_len(rest);
        lemma_chunk_roundtrip(chunk);
        let out = base64_spec(input);
        let q = b64_chunk(chunk);
        let tail = base64_spec(rest);
        assert(out == q + tail);
        let p = (3 - input.len() % 3) % 3;
        if input.len() <= 3 {
            assert(tail.len() == 0);
            assert(p == 3 - chunk.len());
            assert forall|i: int| 0 <= i < out.len() - p implies is_b64_digit_char(
                #[trigger] out[i],
            ) by {
                assert(out[i] == q[i]);
            }
            assert forall|i: int| out.len() - p <= i < out.len() implies #[trigger] out[i]
                == '=' by {
                assert(out[i] == q[i]);
            }
        } else {
            assert(p == (3 - rest.len() % 3) % 3);
            assert forall|i: int| 0 <= i < out.len() - p implies is_b64_digit_char(
                #[trigger] out[i],
            ) by {
                if i < 4 {
                    assert(out[i] == q[i]);
                } else {
                    assert(out[i] == tail[i - 4]);
                }
            }
            assert forall|i: int| out.len() - p <= i < out.len() implies #[trigger] out[i]
                == '=' by {
                assert(out[i] == tail[i - 4]);
            }
        }
    }
}

/// Base64 output is made of digits from the standard alphabet followed by
/// exactly as many `=` as the last group of bytes is short of three, and
/// standard padded decoding gives the input back.
pub proof fn law_base64_shape_and_roundtrip(input: Seq<u8>)
    ensures
        forall|i: int|
            0 <= i < base64_spec(input).len() - (3 - input.len() % 3) % 3 ==> is_b64_digit_char(
                #[trigger] base64_spec(input)[i],
            ),
        forall|i: int|
            base64_spec(input).len() - (3 - input.len() % 3) % 3 <= i < base64_spec(input).len()
                ==> #[trigger] base64_spec(input)[i] == '=',
        base64_decode_spec(base64_spec(input)) == input,
{
    lemma_base64_shape(input);
    lemma_base64_roundtrip(input);
}

// ------------------------------------------------------------ filtering

proof fn lemma_visible_contains(tasks: Seq<TaskView>, filter: Seq<char>, n: nat, k: int)
    requires
        n <= tasks.len(),
        tasks.len() <= usize::MAX,
        0 <= k < tasks.len(),
    ensures
        visible_upto(tasks, filter, n).contains(k as usize) <==> (k < n && keeps(
            tasks[k],
            filter,
        )),
    decreases n,
{
    if n > 0 {
        lemma_visible_contains(tasks, filter, (n - 1) as nat, k);
        lemma_visible_sorted(tasks, filter, (n - 1) as nat);
        let p = visible_upto(tasks, filter, (n - 1) as nat);
        if keeps(tasks[n - 1], filter) {
            let v = p.push((n - 1) as usize);
            if v.contains(k as usize) {
                let i = choose|i: int| 0 <= i < v.len() && v[i] == k as usize;
                if i < p.len() {
                    assert(p[i] == k as usize);
                }
            }
            if p.contains(k as usize) {
                let i = choose|i: int| 0 <= i < p.len() && p[i] == k as usize;
                assert(v[i] == k as usize);
            }
            if k == n - 1 {
                assert(v[p.len() as int] == k as usize);
            }
        } else {
            if p.contains(k as usize) {
                let i = choose|i: int| 0 <= i < p.len() && p[i] == k as usize;
                assert(p[i] < n - 1);
            }
        }
    }
}

/// The filter is a case-insensitive substring match: a task is shown
/// exactly when no filter is applied, or the lowercased filter occurs as a
/// contiguous run, at any position, in the lowercased title or in one of
/// the lowercased tags.
pub proof fn law_filter_is_substring_match(s: AppView, k: int)
    requires
        s.tasks.len() <= usize::MAX,
        0 <= k < s.tasks.len(),
    ensures
        s.visible().contains(k as usize) <==> (s.filter.len() == 0 || (exists|i: int|
            0 <= i && i + lowercase(s.filter).len() <= lowercase(s.tasks[k].title).len()
                && #[trigger] lowercase(s.tasks[k].title).subrange(
                i,
                i + lowercase(s.filter).len(),
            ) == lowercase(s.filter)) || (exists|j: int, i: int|
            0 <= j < s.tasks[k].tags.len() && 0 <= i && i + lowercase(s.filter).len()
                <= lowercase(s.tasks[k].tags[j]).len() && #[trigger] lowercase(
                s.tasks[k].tags[j],
            ).subrange(i, i + lowercase(s.filter).len()) == lowercase(s.filter))),
{
    lemma_visible_contains(s.tasks, s.filter, s.tasks.len(), k);
    let t = s.tasks[k];
    let f = lowercase(s.filter);
    if s.filter.len() > 0 {
        if exists|j: int, i: int|
            0 <= j < t.tags.len() && 0 <= i && i + f.len() <= lowercase(t.tags[j]).len()
                && #[trigger] lowercase(t.tags[j]).subrange(i, i + f.len()) == f {
            let (j, i) = choose|j: int, i: int|
                0 <= j < t.tags.len() && 0 <= i && i + f.len() <= lowercase(t.tags[j]).len()
                    && #[trigger] lowercase(t.tags[j]).subrange(i, i + f.len()) == f;
            assert(crate::text::seq_contains(lowercase(t.tags[j]), f));
        }
        if exists|j: int|
            0 <= j < t.tags.len() && crate::text::seq_contains(lowercase(#[trigger] t.tags[j]), f) {
            let j = choose|j: int|
                0 <= j < t.tags.len() && crate::text::seq_contains(
                    lowercase(#[trigger] t.tags[j]),
                    f,
                );
            let i = choose|i: int|
                0 <= i && i + f.len() <= lowercase(t.tags[j]).len() && #[trigger] lowercase(
                    t.tags[j],
                ).subrange(i, i + f.len()) == f;
            assert(lowercase(t.tags[j]).subrange(i, i + f.len()) == f);
        }
    }
}

/// Pressing `/` on the Tasks tab opens the applied filter for editing, and
/// Enter straight away leaves the applied filter, and so the visible list,
/// as it was.
pub proof fn law_slash_reopens_applied_filter(s: AppView, key: Key)
    requires
        s.mode is Normal,
        s.tab == Tab::Tasks,
        key.code == KeyCode::Char('/'),
    ensures
        s.on_key(key).mode == (ModeView::Filter { draft: s.filter }),
        s.on_key(key).filter == s.filter,
        s.on_key(key).tasks == s.tasks,
        s.on_key(key).on_key(Key { code: KeyCode::Enter, ctrl: false }).filter == s.filter,
        s.on_key(key).on_key(Key { code: KeyCode::Enter, ctrl: false }).mode == ModeView::Normal,
        s.on_key(key).on_key(Key { code: KeyCode::Enter, ctrl: false }).visible() == s.visible(),
{
}

/// Typing a character while drafting a filter appends it at the end of the
/// draft; Backspace removes the last character of a non-empty draft.
pub proof fn law_filter_typing_edits_the_end(s: AppView, draft: Seq<char>, key: Key)
    requires
        s.mode == (ModeView::Filter { draft }),
        !(key.ctrl && key.code == KeyCode::Char('c')),
    ensures
        key.code matches KeyCode::Char(c) ==> s.on_key(key).mode == (ModeView::Filter {
            draft: draft.push(c),
        }),
        key.code == KeyCode::Backspace && draft.len() > 0 ==> s.on_key(key).mode
            == (ModeView::Filter { draft: draft.subrange(0, draft.len() - 1) }),
{
}

// ------------------------------------------------------------ paste

proof fn lemma_strip_concat(a: Seq<char>, b: Seq<char>)
    ensures
        strip_controls(a + b) == strip_controls(a) + strip_controls(b),
    decreases b.len(),
{
    if b.len() == 0 {
        assert(a + b =~= a);
        assert(strip_controls(a) + strip_controls(b) =~= strip_controls(a));
    } else {
        lemma_strip_concat(a, b.drop_last());
        assert((a + b).drop_last() =~= a + b.drop_last());
        assert((a + b).last() == b.last());
        if !is_control_spec(b.last()) {
            assert(strip_controls(a) + strip_controls(b.drop_last()).push(b.last()) =~= (
            strip_controls(a) + strip_controls(b.drop_last())).push(b.last()));
        }
    }
}

/// A paste while a filter is being drafted extends the draft at its end:
/// the old draft is kept as a prefix and is followed by the pasted text
/// without its control characters. Two pastes in a row do what one paste
/// of both texts does. Outside filter mode a paste only ends the notice.
pub proof fn law_paste_appends_to_draft(s: AppView, draft: Seq<char>, a: Seq<char>, b: Seq<char>)
    requires
        s.mode == (ModeView::Filter { draft }),
    ensures
        s.on_paste(a).mode matches ModeView::Filter { draft: d } && d.len() == draft.len()
            + strip_controls(a).len() && d.subrange(0, draft.len() as int) == draft && d.subrange(
            draft.len() as int,
            d.len() as int,
        ) == strip_controls(a),
        s.on_paste(a).on_paste(b) == s.on_paste(a + b),
        s.on_paste(a).filter == s.filter && s.on_paste(a).tasks == s.tasks,
{
    lemma_strip_concat(a, b);
    let d = draft + strip_controls(a);
    assert(d.subrange(0, draft.len() as int) =~= draft);
    assert(d.subrange(draft.len() as int, d.len() as int) =~= strip_controls(a));
    assert(draft + strip_controls(a) + strip_controls(b) =~= draft + (strip_controls(a)
        + strip_controls(b)));
}

/// A paste event in filter mode appends the pasted characters (less the
/// control characters) to the draft; in any other mode it changes nothing
/// but the notice.
pub proof fn law_paste_event(s: AppView, text: String)
    ensures
        s.mode matches ModeView::Filter { draft } ==> s.on_event(Event::Paste(text)).mode == (
        ModeView::Filter { draft: draft + strip_controls(text@) }),
        !(s.mode is Filter) ==> s.on_event(Event::Paste(text)) == (AppView { toast: None, ..s }),
{
}

// ------------------------------------------------------------- help

/// The help overlay closes on Esc, `?`, `q` and F1, and on nothing else;
/// a key neither closes it nor does anything else but end the notice.
pub proof fn law_help_closes_on_its_keys(s: AppView, key: Key)
    requires
        s.mode is Help,
        !(key.ctrl && key.code == KeyCode::Char('c')),
    ensures
        (key.code == KeyCode::Esc || key.code == KeyCode::Char('?') || key.code == KeyCode::Char(
            'q',
        ) || key.code == KeyCode::F(1)) ==> s.on_key(key) == (AppView {
            mode: ModeView::Normal,
            toast: None,
            ..s
        }),
        !(key.code == KeyCode::Esc || key.code == KeyCode::Char('?') || key.code
            == KeyCode::Char('q') || key.code == KeyCode::F(1)) ==> s.on_key(key) == (AppView {
            toast: None,
            ..s
        }),
{
}

// ---------------------------------------------------------- movement

/// Home puts the cursor of the current tab on the first row: the log
/// offset on the Logs tab, the selection on every other tab; the other
/// cursor stays.
pub proof fn law_home_goes_to_first_row(s: AppView, key: Key)
    requires
        s.mode is Normal,
        key.code == KeyCode::Home,
    ensures
        s.tab == Tab::Logs ==> s.on_key(key).log_offset == 0 && s.on_key(key).selected
            == s.selected,
        s.tab != Tab::Logs ==> s.on_key(key).selected == 0 && s.on_key(key).log_offset
            == s.log_offset,
        s.on_key(key).tab == s.tab,
        s.on_key(key).tasks == s.tasks,
        s.on_key(key).mode == ModeView::Normal,
{
}

/// On the Logs tab the cursor keys move the log offset: down and up by
/// one, a page down and up by the page size, End to the last line, each
/// stopping at the first and the last line.
pub proof fn law_log_cursor_keys(s: AppView, key: Key)
    requires
        s.mode is Normal,
        s.tab == Tab::Logs,
        s.log_offset < s.logs.len(),
        !key.ctrl,
    ensures
        (key.code == KeyCode::Down || key.code == KeyCode::Char('j')) ==> s.on_key(key).log_offset
            == if s.log_offset + 1 < s.logs.len() {
            (s.log_offset + 1) as int
        } else {
            s.log_offset as int
        },
        (key.code == KeyCode::Up || key.code == KeyCode::Char('k')) ==> s.on_key(key).log_offset
            == if s.log_offset > 0 {
            s.log_offset - 1
        } else {
            0
        },
        key.code == KeyCode::PageDown ==> s.on_key(key).log_offset == if s.log_offset
            + s.page_size < s.logs.len() {
            (s.log_offset + s.page_size) as int
        } else {
            s.logs.len() - 1
        },
        key.code == KeyCode::PageUp ==> s.on_key(key).log_offset == if s.log_offset
            >= s.page_size {
            s.log_offset - s.page_size
        } else {
            0
        },
        key.code == KeyCode::End ==> s.on_key(key).log_offset == s.logs.len() - 1,
        (key.code == KeyCode::Down || key.code == KeyCode::Up || key.code == KeyCode::PageDown
            || key.code == KeyCode::PageUp || key.code == KeyCode::End) ==> s.on_key(key).selected
            == s.selected,
{
}

/// On the Tasks tab the cursor keys move the selection over the visible
/// list in the same way, stopping at its first and last row.
pub proof fn law_task_cursor_keys(s: AppView, key: Key)
    requires
        s.mode is Normal,
        s.tab == Tab::Tasks,
        s.selected < s.visible().len(),
        !key.ctrl,
    ensures
        (key.code == KeyCode::Down || key.code == KeyCode::Char('j')) ==> s.on_key(key).selected
            == if s.selected + 1 < s.visible().len() {
            (s.selected + 1) as int
        } else {
            s.selected as int
        },
        (key.code == KeyCode::Up || key.code == KeyCode::Char('k')) ==> s.on_key(key).selected
            == if s.selected > 0 {
            s.selected - 1
        } else {
            0
        },
        key.code == KeyCode::PageDown ==> s.on_key(key).selected == if s.selected + s.page_size
            < s.visible().len() {
            (s.selected + s.page_size) as int
        } else {
            s.visible().len() - 1
        },
        key.code == KeyCode::PageUp ==> s.on_key(key).selected == if s.selected >= s.page_size {
            s.selected - s.page_size
        } else {
            0
        },
        key.code == KeyCode::End ==> s.on_key(key).selected == s.visible().len() - 1,
{
}

// ------------------------------------------------------- normal keys

/// The tab bar reads Tasks, Board, Stats, Logs: Tab (or Ctrl-Right) moves
/// one tab to the right and BackTab (or Ctrl-Left) one to the left,
/// wrapping round at both ends.
pub proof fn law_tab_keys_follow_the_bar(s: AppView, key: Key)
    requires
        s.mode is Normal,
    ensures
        (key.code == KeyCode::Tab || (key.code == KeyCode::Right && key.ctrl)) ==> s.on_key(
            key,
        ).tab == match s.tab {
            Tab::Tasks => Tab::Board,
            Tab::Board => Tab::Stats,
            Tab::Stats => Tab::Logs,
            Tab::Logs => Tab::Tasks,
        },
        (key.code == KeyCode::BackTab || (key.code == KeyCode::Left && key.ctrl)) ==> s.on_key(
            key,
        ).tab == match s.tab {
            Tab::Tasks => Tab::Logs,
            Tab::Board => Tab::Tasks,
            Tab::Stats => Tab::Board,
            Tab::Logs => Tab::Stats,
        },
{
}

/// In normal mode `q` asks to quit, and `?` and F1 open the help overlay;
/// neither touches the tasks.
pub proof fn law_quit_and_help_keys(s: AppView, key: Key)
    requires
        s.mode is Normal,
    ensures
        key.code == KeyCode::Char('q') && !key.ctrl ==> s.on_key(key).quit == Some(Quit::Normal),
        (key.code == KeyCode::Char('?') || key.code == KeyCode::F(1)) ==> s.on_key(key).mode
            == ModeView::Help && s.on_key(key).tasks == s.tasks && s.on_key(key).quit == s.quit,
{
}

/// On the board, `l` (or Right) moves the lane cursor one lane to the
/// right and `h` (or Left) one to the left, stopping at the outer lanes.
pub proof fn law_lane_keys(s: AppView, key: Key)
    requires
        s.mode is Normal,
        s.tab == Tab::Board,
        s.lane < 3,
        !key.ctrl,
    ensures
        (key.code == KeyCode::Char('l') || key.code == KeyCode::Right) ==> s.on_key(key).lane == if s.lane < 2 {
            (s.lane + 1) as int
        } else {
            2
        },
        (key.code == KeyCode::Char('h') || key.code == KeyCode::Left) ==> s.on_key(key).lane == if s.lane > 0 {
            s.lane - 1
        } else {
            0
        },
{
}

/// Space on the Tasks tab flips the selected task between done and not
/// done, leaves every other task as it was, and a task that becomes done
/// is no longer started.
pub proof fn law_space_toggles_selected(s: AppView, key: Key)
    requires
        s.mode is Normal,
        s.tab == Tab::Tasks,
        key.code == KeyCode::Char(' '),
        s.selected_index() is Some,
        s.tasks.len() <= usize::MAX,
    ensures
        s.on_key(key).tasks.len() == s.tasks.len(),
        s.on_key(key).tasks[s.selected_index()->0 as int].done == !s.tasks[s.selected_index()->0 as int].done,
        s.on_key(key).tasks[s.selected_index()->0 as int].done ==> !s.on_key(key).tasks[s.selected_index()->0 as int].started,
        s.on_key(key).tasks[s.selected_index()->0 as int].title == s.tasks[s.selected_index()->0 as int].title,
        forall|i: int|
            0 <= i < s.tasks.len() && i != s.selected_index()->0 as int ==> #[trigger] s.on_key(key).tasks[i]
                == s.tasks[i],
{
    lemma_visible_sorted(s.tasks, s.filter, s.tasks.len());
}

/// `d` on the Tasks tab asks for confirmation when a task is selected and
/// rings the bell otherwise; `r` starts a run at 0% in the same case; `y`
/// copies the selected title to the clipboard; `T` flips the contrast.
pub proof fn law_action_keys(s: AppView, key: Key)
    requires
        s.mode is Normal,
        !key.ctrl,
    ensures
        key.code == KeyCode::Char('d') && s.tab == Tab::Tasks ==> s.on_key(key).mode == if s.selected_index() is Some {
            ModeView::ConfirmDelete
        } else {
            ModeView::Normal
        },
        key.code == KeyCode::Char('d') && s.tab == Tab::Tasks && s.selected_index() is None
            ==> s.on_key(key).effects == s.effects.push(crate::model::EffectView::Bell),
        key.code == KeyCode::Char('r') && s.tab == Tab::Tasks && s.selected_index() is Some
            ==> s.on_key(key).mode == (ModeView::Running { pct: 0 }),
        key.code == KeyCode::Char('y') && s.selected_index() is Some ==> s.on_key(key).clipboard
            == Some(s.tasks[s.selected_index()->0 as int].title),
        key.code == KeyCode::Char('T') ==> s.on_key(key).high_contrast == !s.high_contrast,
        key.code == KeyCode::Esc && s.tab == Tab::Tasks ==> s.on_key(key).filter.len() == 0,
{
}

/// Enter in the delete confirmation deletes as `y` does; any key other
/// than y, Enter, n and Esc keeps the confirmation open and rings.
pub proof fn law_confirm_keys(s: AppView, key: Key)
    requires
        s.mode is ConfirmDelete,
        !(key.ctrl && key.code == KeyCode::Char('c')),
    ensures
        key.code == KeyCode::Enter && s.selected_index() is Some ==> s.on_key(key).tasks
            == s.tasks.remove(s.selected_index()->0 as int),
        (key.code == KeyCode::Char('n') || key.code == KeyCode::Esc) ==> s.on_key(key).tasks
            == s.tasks && s.on_key(key).mode == ModeView::Normal,
        !(key.code == KeyCode::Char('y') || key.code == KeyCode::Enter || key.code
            == KeyCode::Char('n') || key.code == KeyCode::Esc) ==> s.on_key(key).mode
            == ModeView::ConfirmDelete && s.on_key(key).tasks == s.tasks && s.on_key(key).effects
            == s.effects.push(crate::model::EffectView::Bell),
{
}

/// A left click on terminal row `r` of the Tasks tab selects list row
/// `r - 4` when that row shows a task; a right click drops the filter; the
/// wheel moves the selection by one; a focus change is recorded.
pub proof fn law_mouse_and_focus(s: AppView, row: u16, f: bool)
    requires
        s.mode is Normal,
        s.tab == Tab::Tasks,
        s.selected < s.visible().len(),
    ensures
        row >= 4 && row - 4 < s.visible().len() ==> s.on_event(Event::MouseLeft { row }).selected
            == row - 4,
        s.on_event(Event::MouseRight).filter.len() == 0,
        s.on_event(Event::ScrollDown).selected == if s.selected + 1 < s.visible().len() {
            (s.selected + 1) as int
        } else {
            s.selected as int
        },
        s.on_event(Event::ScrollUp).selected == if s.selected > 0 {
            s.selected - 1
        } else {
            0
        },
        s.on_event(Event::Focus(f)).focused == f,
        s.on_event(Event::Focus(f)).tasks == s.tasks,
{
}

} // verus!
