//! The board driven key by key, event by event, as a terminal would.

use taskboard::app::App;
use taskboard::model::{Effect, Event, Key, KeyCode, Lane, Mode, Priority, Quit, Tab, Task, Tick};
use taskboard::ui::{status_mode, status_position};

fn key(code: KeyCode) -> Key {
    Key { code, ctrl: false }
}

fn ch(c: char) -> Key {
    key(KeyCode::Char(c))
}

fn press(app: &mut App, k: Key) {
    app.on_key(k);
}

fn type_str(app: &mut App, s: &str) {
    for c in s.chars() {
        app.on_key(ch(c));
    }
}

fn selected_title(app: &App) -> String {
    app.selected_task().map(|t| t.title.clone()).unwrap_or_default()
}

fn position(app: &App) -> String {
    status_position(app)
}

fn visible_titles(app: &App) -> Vec<String> {
    app.visible().iter().map(|&i| app.tasks[i].title.clone()).collect()
}

#[test]
fn boots_into_the_tasks_tab_with_the_first_row_selected() {
    let app = App::new();
    assert_eq!(app.tab, Tab::Tasks);
    assert_eq!(app.mode, Mode::Normal);
    assert_eq!(app.visible().len(), 13);
    assert_eq!(position(&app), "1/13");
    assert_eq!(selected_title(&app), "Wire up the PTY reader");
    assert_eq!(status_mode(&app), "NORMAL");
    assert_eq!(app.logs.len(), 40);
    assert_eq!(app.logs[0], "[001] event 1 — reader drained 17 bytes");
    assert_eq!(app.logs[39], "[040] event 40 — reader drained 680 bytes");
    assert_eq!(app.page_size, 10);
    assert!(app.effects.is_empty());
}

#[test]
fn default_is_a_new_board() {
    let app = App::default();
    assert_eq!(app.tasks.len(), 13);
    assert_eq!(app.window_title(), "taskboard — 10 open");
}

#[test]
fn arrow_and_vim_keys_move_the_selection() {
    let mut app = App::new();
    press(&mut app, key(KeyCode::Down));
    assert_eq!(position(&app), "2/13");
    press(&mut app, ch('j'));
    assert_eq!(position(&app), "3/13");
    assert_eq!(app.selected_task().unwrap().priority.label(), "med");
    press(&mut app, ch('k'));
    assert_eq!(position(&app), "2/13");
    press(&mut app, key(KeyCode::Up));
    assert_eq!(position(&app), "1/13");
}

#[test]
fn selection_clamps_at_both_ends() {
    let mut app = App::new();
    press(&mut app, key(KeyCode::Up));
    press(&mut app, key(KeyCode::Up));
    assert_eq!(position(&app), "1/13");
    press(&mut app, key(KeyCode::End));
    assert_eq!(position(&app), "13/13");
    press(&mut app, key(KeyCode::Down));
    assert_eq!(position(&app), "13/13");
    press(&mut app, key(KeyCode::Home));
    assert_eq!(position(&app), "1/13");
}

#[test]
fn page_keys_move_by_a_screenful() {
    let mut app = App::new();
    press(&mut app, key(KeyCode::Tab));
    press(&mut app, key(KeyCode::Tab));
    press(&mut app, key(KeyCode::Tab));
    assert_eq!(app.tab, Tab::Logs);
    // A 26-row terminal leaves a 22-row log list: 20 rows inside its border.
    app.page_size = taskboard::ui::page_size_for(22);
    assert_eq!(app.page_size, 20);
    press(&mut app, key(KeyCode::PageDown));
    assert_eq!(position(&app), "21/40");
    press(&mut app, key(KeyCode::PageDown));
    press(&mut app, key(KeyCode::PageDown));
    assert_eq!(position(&app), "40/40");
    press(&mut app, key(KeyCode::PageUp));
    press(&mut app, key(KeyCode::PageUp));
    press(&mut app, key(KeyCode::PageUp));
    assert_eq!(position(&app), "1/40");
}

#[test]
fn tab_and_backtab_cycle_the_tabs() {
    let mut app = App::new();
    press(&mut app, key(KeyCode::Tab));
    assert_eq!(app.tab, Tab::Board);
    press(&mut app, key(KeyCode::Tab));
    assert_eq!(app.tab, Tab::Stats);
    press(&mut app, key(KeyCode::Tab));
    assert_eq!(app.tab, Tab::Logs);
    press(&mut app, key(KeyCode::Tab));
    assert_eq!(app.tab, Tab::Tasks);
    press(&mut app, key(KeyCode::BackTab));
    assert_eq!(app.tab, Tab::Logs);
}

#[test]
fn ctrl_arrow_chords_switch_tabs() {
    let mut app = App::new();
    app.on_key(Key { code: KeyCode::Right, ctrl: true });
    assert_eq!(app.tab, Tab::Board);
    app.on_key(Key { code: KeyCode::Left, ctrl: true });
    assert_eq!(app.tab, Tab::Tasks);
}

#[test]
fn filter_mode_narrows_the_list_on_enter() {
    let mut app = App::new();
    press(&mut app, ch('/'));
    assert_eq!(status_mode(&app), "FILTER");
    type_str(&mut app, "core");
    assert_eq!(app.mode, Mode::Filter { draft: "core".to_string() });
    press(&mut app, key(KeyCode::Enter));
    assert_eq!(app.visible().len(), 4);
    assert_eq!(app.filter, "core");
    assert!(!visible_titles(&app).contains(&"Add bracketed paste".to_string()));
    assert_eq!(status_mode(&app), "NORMAL");
}

#[test]
fn backspace_edits_the_draft_before_it_is_applied() {
    let mut app = App::new();
    press(&mut app, ch('/'));
    type_str(&mut app, "docs");
    press(&mut app, key(KeyCode::Backspace));
    press(&mut app, key(KeyCode::Backspace));
    assert_eq!(app.mode, Mode::Filter { draft: "do".to_string() });
    assert_eq!(app.visible().len(), 13, "draft is not applied yet");
    press(&mut app, key(KeyCode::Enter));
    assert_eq!(app.visible().len(), 3);
    assert!(visible_titles(&app).contains(&"Document the wait heuristics".to_string()));
}

#[test]
fn backspace_on_an_empty_draft_rings() {
    let mut app = App::new();
    press(&mut app, ch('/'));
    press(&mut app, key(KeyCode::Backspace));
    assert_eq!(app.effects, vec![Effect::Bell]);
    assert_eq!(app.mode, Mode::Filter { draft: String::new() });
}

#[test]
fn pasting_delivers_one_paste_event() {
    let mut app = App::new();
    press(&mut app, ch('/'));
    app.on_event(Event::Paste("core".to_string()));
    press(&mut app, key(KeyCode::Enter));
    assert_eq!(app.visible().len(), 4);
}

#[test]
fn a_paste_drops_control_characters() {
    let mut app = App::new();
    press(&mut app, ch('/'));
    app.on_paste("co\nre\r\t\u{7f}\u{85}");
    assert_eq!(app.mode, Mode::Filter { draft: "core".to_string() });
}

#[test]
fn a_paste_outside_filter_mode_is_ignored() {
    let mut app = App::new();
    app.on_paste("core");
    assert_eq!(app.mode, Mode::Normal);
    assert_eq!(app.filter, "");
}

#[test]
fn filter_matches_tags_as_well_as_titles() {
    let mut app = App::new();
    press(&mut app, ch('/'));
    app.on_paste("i18n");
    press(&mut app, key(KeyCode::Enter));
    let titles = visible_titles(&app);
    assert_eq!(titles.len(), 3);
    assert!(titles.contains(&"帳票をレンダリングする".to_string()));
    assert!(titles.contains(&"Support 🚀 emoji width".to_string()));
}

#[test]
fn the_filter_ignores_case() {
    let mut app = App::new();
    press(&mut app, ch('/'));
    type_str(&mut app, "SIGwinch");
    press(&mut app, key(KeyCode::Enter));
    assert_eq!(visible_titles(&app), vec!["Handle SIGWINCH".to_string()]);
    app.clear_filter();
    press(&mut app, ch('/'));
    type_str(&mut app, "CORE");
    press(&mut app, key(KeyCode::Enter));
    assert_eq!(app.visible(), vec![0, 1, 3, 8]);
}

#[test]
fn a_filter_that_matches_nothing_empties_the_list() {
    let mut app = App::new();
    press(&mut app, key(KeyCode::End));
    press(&mut app, ch('/'));
    type_str(&mut app, "zzz");
    press(&mut app, key(KeyCode::Enter));
    assert!(app.visible().is_empty());
    assert_eq!(app.selected, 0);
    assert!(app.selected_task().is_none());
    assert_eq!(position(&app), "0/0");
    press(&mut app, ch('d'));
    assert_eq!(app.mode, Mode::Normal);
    assert_eq!(app.effects, vec![Effect::Bell]);
}

#[test]
fn esc_abandons_the_filter_draft() {
    let mut app = App::new();
    press(&mut app, ch('/'));
    type_str(&mut app, "perf");
    press(&mut app, key(KeyCode::Esc));
    assert_eq!(app.mode, Mode::Normal);
    assert_eq!(app.visible().len(), 13);
    assert_eq!(app.filter, "");
}

#[test]
fn esc_in_normal_mode_clears_an_applied_filter() {
    let mut app = App::new();
    press(&mut app, ch('/'));
    type_str(&mut app, "perf");
    press(&mut app, key(KeyCode::Enter));
    assert_eq!(app.filter, "perf");
    assert_eq!(app.visible().len(), 1);
    press(&mut app, key(KeyCode::Esc));
    assert_eq!(app.visible().len(), 13);
    assert_eq!(app.filter, "");
}

#[test]
fn confirm_dialog_deletes_the_selected_task() {
    let mut app = App::new();
    press(&mut app, ch('d'));
    assert_eq!(app.mode, Mode::ConfirmDelete);
    assert_eq!(status_mode(&app), "CONFIRM");
    press(&mut app, ch('y'));
    assert_eq!(app.visible().len(), 12);
    assert!(!visible_titles(&app).contains(&"Wire up the PTY reader".to_string()));
    assert_eq!(app.mode, Mode::Normal);
    assert_eq!(app.toast.as_deref(), Some("deleted Wire up the PTY reader"));
    assert_eq!(app.effects, vec![Effect::Title("taskboard — 10 open".to_string())]);
}

#[test]
fn deleting_the_last_row_pulls_the_selection_back() {
    let mut app = App::new();
    press(&mut app, key(KeyCode::End));
    press(&mut app, ch('d'));
    press(&mut app, key(KeyCode::Enter));
    assert_eq!(app.tasks.len(), 12);
    assert_eq!(position(&app), "12/12");
    assert_eq!(selected_title(&app), "Audit 👨‍👩‍👧 🇻🇳 ❤️ glyph widths");
}

#[test]
fn confirm_dialog_cancels_without_deleting() {
    let mut app = App::new();
    press(&mut app, ch('d'));
    press(&mut app, ch('n'));
    assert_eq!(app.mode, Mode::Normal);
    assert_eq!(app.tasks.len(), 13);
    press(&mut app, ch('d'));
    press(&mut app, key(KeyCode::Esc));
    assert_eq!(app.mode, Mode::Normal);
    assert_eq!(selected_title(&app), "Wire up the PTY reader");
}

#[test]
fn the_bell_on_rejected_input() {
    let mut app = App::new();
    press(&mut app, ch('d'));
    press(&mut app, ch('z'));
    assert_eq!(app.mode, Mode::ConfirmDelete);
    assert_eq!(app.effects, vec![Effect::Bell]);
    assert_eq!(app.tasks.len(), 13);
}

#[test]
fn help_overlay_opens_from_question_mark_and_f1() {
    let mut app = App::new();
    press(&mut app, ch('?'));
    assert_eq!(app.mode, Mode::Help);
    assert_eq!(status_mode(&app), "HELP");
    press(&mut app, ch('x'));
    assert_eq!(app.mode, Mode::Help);
    press(&mut app, key(KeyCode::Esc));
    assert_eq!(app.mode, Mode::Normal);
    press(&mut app, key(KeyCode::F(1)));
    assert_eq!(app.mode, Mode::Help);
    press(&mut app, ch('q'));
    assert_eq!(app.mode, Mode::Normal);
    assert_eq!(app.quit, None, "q closes help rather than quitting");
}

#[test]
fn space_toggles_the_done_marker() {
    let mut app = App::new();
    assert!(app.tasks[0].done);
    press(&mut app, ch(' '));
    assert!(!app.tasks[0].done);
    assert_eq!(taskboard::ui::task_status(&app.tasks[0]), "open");
    press(&mut app, ch(' '));
    assert!(app.tasks[0].done);
    assert_eq!(taskboard::ui::task_status(&app.tasks[0]), "done");
}

#[test]
fn the_window_title_follows_the_open_count() {
    let mut app = App::new();
    assert_eq!(app.window_title(), "taskboard — 10 open");
    press(&mut app, ch(' '));
    assert_eq!(app.window_title(), "taskboard — 11 open");
    assert_eq!(app.effects, vec![Effect::Title("taskboard — 11 open".to_string())]);
    press(&mut app, ch(' '));
    assert_eq!(app.window_title(), "taskboard — 10 open");
}

#[test]
fn finishing_a_started_task_takes_it_off_the_doing_lane() {
    let mut app = App::new();
    press(&mut app, ch('j'));
    press(&mut app, ch('j'));
    assert_eq!(app.tasks[2].lane(), Lane::Doing);
    press(&mut app, ch(' '));
    assert_eq!(app.tasks[2].lane(), Lane::Done);
    assert!(!app.tasks[2].started);
    press(&mut app, ch(' '));
    assert_eq!(app.tasks[2].lane(), Lane::Todo);
}

#[test]
fn counts_and_lanes() {
    let app = App::new();
    assert_eq!(app.done_count(), 3);
    assert_eq!(app.open_count(), 10);
    assert_eq!(app.count_by(Priority::High), 4);
    assert_eq!(app.count_by(Priority::Medium), 4);
    assert_eq!(app.count_by(Priority::Low), 5);
    assert_eq!(app.lane_tasks(Lane::Todo).len(), 8);
    assert_eq!(app.lane_tasks(Lane::Doing), vec![2, 8]);
    assert_eq!(app.lane_tasks(Lane::Done), vec![0, 1, 7]);
}

#[test]
fn the_board_lays_out_three_lanes() {
    let mut app = App::new();
    press(&mut app, key(KeyCode::Tab));
    assert_eq!(position(&app), "todo 1/8");
}

#[test]
fn h_and_l_move_between_lanes() {
    let mut app = App::new();
    press(&mut app, key(KeyCode::Tab));
    assert_eq!(position(&app), "todo 1/8");
    press(&mut app, ch('l'));
    assert_eq!(position(&app), "doing 1/2");
    press(&mut app, key(KeyCode::Right));
    assert_eq!(position(&app), "done 1/3");
    press(&mut app, ch('l'));
    assert_eq!(position(&app), "done 1/3");
    press(&mut app, ch('h'));
    assert_eq!(position(&app), "doing 1/2");
    press(&mut app, key(KeyCode::Left));
    press(&mut app, key(KeyCode::Left));
    assert_eq!(app.lane, 0);
}

#[test]
fn board_moves_stay_inside_the_lane() {
    let mut app = App::new();
    press(&mut app, key(KeyCode::Tab));
    press(&mut app, ch('l'));
    press(&mut app, key(KeyCode::End));
    assert_eq!(position(&app), "doing 2/2");
    press(&mut app, ch('j'));
    assert_eq!(position(&app), "doing 2/2");
    assert_eq!(app.selected, 1);
}

#[test]
fn lane_keys_outside_the_board_do_nothing() {
    let mut app = App::new();
    press(&mut app, ch('l'));
    press(&mut app, ch('h'));
    assert_eq!(app.lane, 0);
    assert_eq!(position(&app), "1/13");
}

#[test]
fn the_stats_tab_has_no_cursor() {
    let mut app = App::new();
    press(&mut app, ch('j'));
    press(&mut app, key(KeyCode::Tab));
    press(&mut app, key(KeyCode::Tab));
    assert_eq!(app.tab, Tab::Stats);
    assert_eq!(position(&app), "-");
    press(&mut app, ch('j'));
    assert_eq!(app.selected, 1, "an empty list does not move");
    press(&mut app, key(KeyCode::End));
    assert_eq!(app.selected, 0, "End on an empty list goes to the top");
}

#[test]
fn a_progress_run_finishes_after_eleven_steps() {
    let mut app = App::new();
    press(&mut app, ch(' '));
    assert!(!app.tasks[0].done);
    app.effects.clear();
    press(&mut app, ch('r'));
    assert_eq!(app.mode, Mode::Running { pct: 0 });
    assert_eq!(status_mode(&app), "RUNNING");
    let mut steps = 0;
    let mut seen = Vec::new();
    loop {
        if let Mode::Running { pct } = app.mode {
            seen.push(pct);
        }
        steps += 1;
        if !app.step_run() {
            break;
        }
    }
    assert_eq!(steps, 11);
    assert_eq!(seen, vec![0, 10, 20, 30, 40, 50, 60, 70, 80, 90, 100]);
    assert_eq!(app.mode, Mode::Normal);
    assert!(app.tasks[0].done);
    assert_eq!(app.toast.as_deref(), Some("finished Wire up the PTY reader"));
    assert_eq!(app.effects, vec![Effect::Title("taskboard — 10 open".to_string())]);
    assert!(!app.step_run(), "no run, no step");
}

#[test]
fn keys_are_ignored_during_a_run() {
    let mut app = App::new();
    press(&mut app, ch('r'));
    press(&mut app, ch('j'));
    press(&mut app, ch('q'));
    assert_eq!(app.selected, 0);
    assert_eq!(app.quit, None);
    app.on_key(Key { code: KeyCode::Char('c'), ctrl: true });
    assert_eq!(app.quit, Some(Quit::Interrupted));
}

#[test]
fn yank_copies_the_selected_title() {
    let mut app = App::new();
    press(&mut app, ch('y'));
    assert_eq!(app.clipboard.as_deref(), Some("Wire up the PTY reader"));
    assert_eq!(app.toast.as_deref(), Some("copied Wire up the PTY reader"));
    assert_eq!(app.effects, vec![Effect::Copy("Wire up the PTY reader".to_string())]);
    press(&mut app, ch('j'));
    assert_eq!(app.toast, None, "a notice lasts one key");
    press(&mut app, ch('y'));
    assert_eq!(app.clipboard.as_deref(), Some("Snapshot the screen grid"));
}

#[test]
fn the_high_contrast_palette_toggles() {
    let mut app = App::new();
    press(&mut app, ch('T'));
    assert!(app.high_contrast);
    assert_eq!(app.toast.as_deref(), Some("high contrast on"));
    assert_eq!(app.effects, vec![Effect::Palette(true)]);
    press(&mut app, ch('T'));
    assert!(!app.high_contrast);
    assert_eq!(app.toast.as_deref(), Some("high contrast off"));
    assert_eq!(app.effects, vec![Effect::Palette(true), Effect::Palette(false)]);
}

#[test]
fn take_effects_drains_them_in_order() {
    let mut app = App::new();
    press(&mut app, ch('T'));
    press(&mut app, ch('y'));
    let taken = app.take_effects();
    assert_eq!(taken.len(), 2);
    assert_eq!(taken[0], Effect::Palette(true));
    assert!(app.effects.is_empty());
}

#[test]
fn q_quits_cleanly() {
    let mut app = App::new();
    press(&mut app, ch('q'));
    assert_eq!(app.quit, Some(Quit::Normal));
}

#[test]
fn ctrl_c_quits_from_any_mode() {
    for setup in ['/', '?', 'd'] {
        let mut app = App::new();
        press(&mut app, ch(setup));
        app.on_key(Key { code: KeyCode::Char('c'), ctrl: true });
        assert_eq!(app.quit, Some(Quit::Interrupted));
    }
}

#[test]
fn clicking_a_row_selects_it() {
    let mut app = App::new();
    // Row 6 of the screen is the third row of the list.
    app.on_event(Event::MouseLeft { row: 6 });
    assert_eq!(position(&app), "3/13");
    assert_eq!(app.selected_task().unwrap().priority.label(), "med");
    app.on_event(Event::MouseLeft { row: 2 });
    assert_eq!(position(&app), "3/13", "a click on the tab bar selects nothing");
    app.on_event(Event::MouseLeft { row: 40 });
    assert_eq!(position(&app), "3/13", "a click below the list selects nothing");
}

#[test]
fn the_wheel_moves_the_selection() {
    let mut app = App::new();
    app.on_event(Event::ScrollDown);
    assert_eq!(position(&app), "2/13");
    app.on_event(Event::ScrollDown);
    assert_eq!(position(&app), "3/13");
    app.on_event(Event::ScrollUp);
    assert_eq!(position(&app), "2/13");
    app.scroll_by(-100);
    assert_eq!(position(&app), "1/13");
    app.scroll_by(isize::MAX);
    assert_eq!(position(&app), "13/13");
}

#[test]
fn right_click_clears_the_filter() {
    let mut app = App::new();
    press(&mut app, ch('/'));
    type_str(&mut app, "core");
    press(&mut app, key(KeyCode::Enter));
    app.on_event(Event::MouseRight);
    assert_eq!(app.filter, "");
    assert_eq!(app.visible().len(), 13);
}

#[test]
fn focus_changes_are_recorded() {
    let mut app = App::new();
    app.on_event(Event::Focus(false));
    assert!(!app.focused);
    app.on_focus(true);
    assert!(app.focused);
}

#[test]
fn select_row_only_on_the_tasks_tab() {
    let mut app = App::new();
    app.select_row(4);
    assert_eq!(app.selected, 4);
    app.select_row(13);
    assert_eq!(app.selected, 4);
    press(&mut app, key(KeyCode::Tab));
    app.select_row(0);
    assert_eq!(app.selected, 4);
}

#[test]
fn sigterm_shuts_down_gracefully() {
    let mut app = App::new();
    assert!(!app.begin_shutdown(false));
    assert!(!app.shutting_down);
    assert!(app.begin_shutdown(true));
    assert!(app.shutting_down);
    assert_eq!(status_mode(&app), "SAVING");

    let mut quitting = App::new();
    press(&mut quitting, ch('q'));
    assert!(!quitting.begin_shutdown(true), "a quit already under way wins");
}

#[test]
fn probe_results_go_to_the_top_of_the_log() {
    let mut app = App::new();
    app.record_sync_probe(true);
    assert_eq!(app.logs.len(), 41);
    assert_eq!(app.logs[0], "[000] DECRQM ?2026 supported: yes");
    app.record_capability_probes(6, 6);
    assert_eq!(app.logs[0], "[000] capability probes: 6/6");
    assert_eq!(app.logs[1], "[000] DECRQM ?2026 supported: yes");
    app.record_sync_probe(false);
    assert_eq!(app.logs[0], "[000] DECRQM ?2026 supported: no");
}

#[test]
fn task_builders_set_one_field_each() {
    let t = Task::new("t", false, Priority::Low, &["a", "b"], "n");
    assert_eq!(t.tags, vec!["a".to_string(), "b".to_string()]);
    assert_eq!(t.lane(), Lane::Todo);
    let t = t.url("u").secret("s").overdue().started();
    assert_eq!(t.url.as_deref(), Some("u"));
    assert_eq!(t.secret.as_deref(), Some("s"));
    assert!(t.overdue);
    assert_eq!(t.lane(), Lane::Doing);
}

#[test]
fn the_concealed_task_is_found_by_its_tag() {
    let mut app = App::new();
    press(&mut app, ch('/'));
    app.on_paste("secret");
    press(&mut app, key(KeyCode::Enter));
    assert_eq!(app.visible().len(), 1);
    assert_eq!(app.selected_task().unwrap().secret.as_deref(), Some("hunter2-rotate-me"));
}

#[test]
fn titles_of_tabs_lanes_and_priorities() {
    assert_eq!(Tab::Tasks.title(), "Tasks");
    assert_eq!(Tab::Logs.title(), "Logs");
    assert_eq!(Tab::Tasks.next(), Tab::Board);
    assert_eq!(Tab::Tasks.prev(), Tab::Logs);
    assert_eq!(Lane::Doing.title(), "doing");
    assert_eq!(Priority::High.label(), "HIGH");
    assert_eq!(Priority::Low.label(), "low");
}

#[test]
fn a_lane_cursor_past_the_board_only_matters_on_the_board() {
    let mut app = App::new();
    app.lane = 7;
    press(&mut app, ch('j'));
    assert_eq!(position(&app), "2/13");
    press(&mut app, key(KeyCode::Tab));
    press(&mut app, ch('l'));
    assert_eq!(app.lane, 2, "stepping right lands on the last lane");
    assert_eq!(position(&app), "done 2/3");
}

#[test]
fn every_event_ends_the_notice() {
    for event in [
        Event::MouseLeft { row: 6 },
        Event::MouseRight,
        Event::ScrollDown,
        Event::Paste("x".to_string()),
        Event::Focus(false),
        Event::Other,
    ] {
        let mut app = App::new();
        press(&mut app, ch('y'));
        assert!(app.toast.is_some());
        app.on_event(event);
        assert_eq!(app.toast, None);
    }
}

#[test]
fn the_loop_idles_redraws_and_finishes() {
    let mut app = App::new();
    assert_eq!(app.tick(None, false), Tick::Idle);
    assert_eq!(app.tick(Some(Event::ScrollDown), false), Tick::Redraw);
    assert_eq!(position(&app), "2/13");
    assert_eq!(app.tick(Some(Event::Key(ch('q'))), false), Tick::Finish(Quit::Normal));
    assert!(!app.shutting_down, "a quit under way is not a shutdown");

    let mut app = App::new();
    assert_eq!(app.tick(None, true), Tick::Finish(Quit::Terminated));
    assert!(app.shutting_down);
    assert_eq!(status_mode(&app), "SAVING");
}

#[test]
fn a_run_paints_twelve_frames() {
    let mut app = App::new();
    press(&mut app, ch('r'));
    assert!(app.is_running());
    let mut frames = 1;
    while app.step_run() {
        frames += 1;
    }
    frames += 1;
    assert_eq!(frames, 12);
    assert!(!app.is_running());
}
