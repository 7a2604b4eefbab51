//! The bytes around the frames, and what the renderer computes.

use taskboard::app::matches_lowered;
use taskboard::escape::{
    base64, cursor_shape_sequence, cursor_to_sequence, effect_sequence, exit_code,
    hyperlink_sequence, palette_sequences, sync_reply_supported, Args,
};
use taskboard::model::{Effect, Lane, Mode, Priority, Quit, Task};
use taskboard::app::App;
use taskboard::text::{contains, is_control, push_decimal, push_decimal_03};
use taskboard::ui::{
    bar, board_lanes, board_selection, detail_lines, detail_link_hint, detail_link_row, status_badge_dimmed, status_segments, task_row, DetailField, RowPart, Segment, filter_cursor_x, lane_block_title, link_hint_at, list_selection,
    logs_title, page_size_for, popup_area, priority_cell, running_title, shows_detail,
    running_rows, screen_areas, status_tab, tags_line, task_mark, tasks_pane, tasks_title, Rect,
};

#[test]
fn base64_matches_the_standard_alphabet_and_padding() {
    assert_eq!(base64(b""), "");
    assert_eq!(base64(b"a"), "YQ==");
    assert_eq!(base64(b"ab"), "YWI=");
    assert_eq!(base64(b"abc"), "YWJj");
    assert_eq!(base64(b"Wire up the PTY reader"), "V2lyZSB1cCB0aGUgUFRZIHJlYWRlcg==");
    assert_eq!(base64(&[0xff, 0xfe, 0xfd]), "//79");
    assert_eq!(base64(&[0xfb, 0xff]), "+/8=");
}

#[test]
fn base64_length_is_four_per_started_triple() {
    for n in 0..20usize {
        let input = vec![7u8; n];
        assert_eq!(base64(&input).len(), 4 * n.div_ceil(3));
    }
}

#[test]
fn the_clipboard_payload_is_the_title_in_base64() {
    let seq = effect_sequence(&Effect::Copy("Wire up the PTY reader".to_string()));
    assert_eq!(seq, "\x1b]52;c;V2lyZSB1cCB0aGUgUFRZIHJlYWRlcg==\x1b\\");
    let seq = effect_sequence(&Effect::Copy("é".to_string()));
    assert_eq!(seq, "\x1b]52;c;w6k=\x1b\\", "the UTF-8 bytes are encoded");
}

#[test]
fn effects_become_their_escape_sequences() {
    assert_eq!(effect_sequence(&Effect::Bell), "\x07");
    assert_eq!(
        effect_sequence(&Effect::Title("taskboard — 10 open".to_string())),
        "\x1b]2;taskboard — 10 open\x07"
    );
    assert_eq!(effect_sequence(&Effect::Palette(false)), "\x1b]104\x1b\\");
    assert_eq!(effect_sequence(&Effect::Palette(true)), palette_sequences(true));
}

#[test]
fn palette_sequences_redefine_six_slots_or_reset() {
    assert_eq!(
        palette_sequences(true),
        "\x1b]4;1;rgb:ff/00/40\x1b\\\x1b]4;2;rgb:00/ff/80\x1b\\\x1b]4;3;rgb:ff/ff/00\x1b\\\
         \x1b]4;4;rgb:00/c0/ff\x1b\\\x1b]4;5;rgb:ff/00/ff\x1b\\\x1b]4;6;rgb:00/ff/ff\x1b\\"
    );
    assert_eq!(palette_sequences(false), "\x1b]104\x1b\\");
}

#[test]
fn the_cursor_is_a_bar_while_typing() {
    assert_eq!(cursor_shape_sequence(&Mode::Filter { draft: String::new() }), "\x1b[5 q");
    assert_eq!(cursor_shape_sequence(&Mode::Normal), "\x1b[2 q");
    assert_eq!(cursor_shape_sequence(&Mode::Running { pct: 10 }), "\x1b[2 q");
}

#[test]
fn hyperlinks_are_placed_and_wrapped() {
    assert_eq!(cursor_to_sequence(9, 4), "\x1b[5;10H");
    assert_eq!(cursor_to_sequence(u16::MAX, 0), "\x1b[1;65536H");
    assert_eq!(
        hyperlink_sequence("open ref", "https://example.invalid/rfc/pty-reader"),
        "\x1b]8;;https://example.invalid/rfc/pty-reader\x1b\\open ref\x1b]8;;\x1b\\"
    );
}

#[test]
fn a_decrqm_reply_is_read_for_mode_2026() {
    assert!(sync_reply_supported(b"\x1b[?2026;1$y"));
    assert!(sync_reply_supported(b"\x1b[?2026;2$y"));
    assert!(sync_reply_supported(b"\x1b[?2026;3$y"));
    assert!(!sync_reply_supported(b"\x1b[?2026;0$y"), "0 means not recognized");
    assert!(!sync_reply_supported(b"\x1b[?2026;4$y"), "4 means permanently reset");
    assert!(!sync_reply_supported(b""));
    assert!(!sync_reply_supported(b"\x1b[?2026;2$"), "no report end");
    assert!(!sync_reply_supported(b"$y"), "a bare report end is no answer");
    assert!(!sync_reply_supported(b"\x1b[?2004;2$y"), "a report on another mode");
    assert!(
        !sync_reply_supported(b"\x1b[?2026;0$y\x1b[?2026;2$y"),
        "the first report decides"
    );
    assert!(sync_reply_supported(b"\xff\xfe\x1b[?2026;2$y"), "stray bytes before it do not matter");
}

#[test]
fn exit_codes_follow_the_shell_convention() {
    assert_eq!(exit_code(Quit::Normal), 0);
    assert_eq!(exit_code(Quit::Interrupted), 130);
    assert_eq!(exit_code(Quit::Terminated), 143);
}

#[test]
fn the_command_line_switches() {
    let args = |v: &[&str]| Args::parse(&v.iter().map(|s| s.to_string()).collect());
    assert_eq!(args(&[]), Args { probe_sync: false, probe_caps: false });
    assert_eq!(args(&["--probe-sync"]), Args { probe_sync: true, probe_caps: false });
    assert_eq!(
        args(&["x", "--probe-caps", "--probe-sync"]),
        Args { probe_sync: true, probe_caps: true }
    );
    assert_eq!(
        args(&["--probe-sync=1", "probe-caps"]),
        Args { probe_sync: false, probe_caps: false }
    );
}

#[test]
fn decimal_rendering() {
    let mut s = String::new();
    push_decimal(&mut s, 0);
    s.push(' ');
    push_decimal(&mut s, 680);
    s.push(' ');
    push_decimal(&mut s, u64::MAX);
    assert_eq!(s, "0 680 18446744073709551615");
    let mut s = String::new();
    push_decimal_03(&mut s, 7);
    push_decimal_03(&mut s, 40);
    push_decimal_03(&mut s, 123);
    push_decimal_03(&mut s, 4567);
    assert_eq!(s, "0070401234567");
}

#[test]
fn substring_search_and_control_characters() {
    let v = |s: &str| s.chars().collect::<Vec<char>>();
    assert!(contains(&v("handle sigwinch"), &v("winch")));
    assert!(contains(&v("abc"), &v("")));
    assert!(!contains(&v("ab"), &v("abc")));
    assert!(!contains(&v("abd"), &v("abc")));
    assert!(is_control('\n'));
    assert!(is_control('\u{7f}'));
    assert!(is_control('\u{9f}'));
    assert!(!is_control('\u{a0}'));
    assert!(!is_control('a'));
}

#[test]
fn task_rows_and_detail_text() {
    let t = Task::new("x", false, Priority::High, &["core", "io"], "");
    assert_eq!(task_mark(&t), "[ ] ");
    assert_eq!(task_mark(&t.clone().started()), "[~] ");
    assert_eq!(priority_cell(Priority::High), "HIGH ");
    assert_eq!(priority_cell(Priority::Medium), "med  ");
    assert_eq!(priority_cell(Priority::Low), "low  ");
    assert_eq!(tags_line(&t), "core, io");
    assert_eq!(tags_line(&Task::new("x", true, Priority::Low, &[], "")), "");
    assert_eq!(task_mark(&Task::new("x", true, Priority::Low, &[], "")), "[x] ");
}

#[test]
fn pane_titles() {
    assert_eq!(tasks_title(13, false), " tasks (13) ");
    assert_eq!(tasks_title(4, true), " tasks (4) filtered ");
    assert_eq!(lane_block_title(Lane::Todo, 8), " todo (8) ");
    assert_eq!(logs_title(40), " logs (40) ");
    assert_eq!(running_title(30), " running 30% ");
    assert_eq!(status_tab(taskboard::model::Tab::Board), " Board ");
    assert_eq!(bar(3), "███");
    assert_eq!(bar(0), "");
}

#[test]
fn layout_numbers() {
    assert!(shows_detail(60));
    assert!(!shows_detail(59));
    assert_eq!(page_size_for(22), 20);
    assert_eq!(page_size_for(3), 1);
    assert_eq!(page_size_for(0), 1);
    assert_eq!(list_selection(5, 3), 2);
    assert_eq!(list_selection(5, 0), 0);
    assert_eq!(board_selection(true, 5, 2), Some(1));
    assert_eq!(board_selection(false, 0, 2), None);
    assert_eq!(board_selection(true, 0, 0), None);
}

#[test]
fn popups_are_centered_and_shrunk() {
    let area = Rect { x: 0, y: 0, width: 90, height: 26 };
    assert_eq!(popup_area(area, 44, 6), Rect { x: 23, y: 10, width: 44, height: 6 });
    let small = Rect { x: 2, y: 3, width: 30, height: 4 };
    assert_eq!(popup_area(small, 44, 6), Rect { x: 2, y: 3, width: 30, height: 4 });
}

#[test]
fn link_hints_and_the_filter_cursor() {
    let detail = Rect { x: 40, y: 3, width: 50, height: 20 };
    assert_eq!(link_hint_at(detail, 4), Some((50, 8)));
    let short = Rect { x: 40, y: 3, width: 50, height: 5 };
    assert_eq!(link_hint_at(short, 4), None);
    let input = Rect { x: 0, y: 24, width: 90, height: 1 };
    assert_eq!(filter_cursor_x(input, 4), 5);
    assert_eq!(filter_cursor_x(input, 200), 89);
}

#[test]
fn matching_on_lowercased_text() {
    let v = |s: &str| s.chars().collect::<Vec<char>>();
    let tags = vec![v("core"), v("layout")];
    assert!(matches_lowered(&v("handle sigwinch"), &tags, &v("sigwinch")));
    assert!(matches_lowered(&v("handle sigwinch"), &tags, &v("lay")));
    assert!(!matches_lowered(&v("handle sigwinch"), &tags, &v("SIGWINCH")));
    assert!(!matches_lowered(&v("x"), &Vec::new(), &v("y")));
    assert!(matches_lowered(&v("x"), &Vec::new(), &v("")));
}

#[test]
fn the_screen_is_tab_bar_content_filter_and_status() {
    let screen = Rect { x: 0, y: 0, width: 90, height: 26 };
    let a = screen_areas(screen, false);
    assert_eq!(a.tabs, Rect { x: 0, y: 0, width: 90, height: 3 });
    assert_eq!(a.content, Rect { x: 0, y: 3, width: 90, height: 22 });
    assert_eq!(a.filter.height, 0);
    assert_eq!(a.status, Rect { x: 0, y: 25, width: 90, height: 1 });
    let b = screen_areas(screen, true);
    assert_eq!(b.content.height, 21);
    assert_eq!(b.filter, Rect { x: 0, y: 24, width: 90, height: 1 });
}

#[test]
fn the_tasks_pane_drops_the_detail_when_narrow() {
    let wide = tasks_pane(Rect { x: 0, y: 3, width: 90, height: 22 });
    assert_eq!(wide.page_size, 20);
    let detail = wide.detail.expect("room for the detail pane");
    assert_eq!(wide.list.height, 22);
    assert_eq!(wide.list.x, 0);
    assert_eq!(wide.list.width + detail.width, 90);
    assert_eq!(detail.x, wide.list.width);
    let narrow = tasks_pane(Rect { x: 0, y: 3, width: 50, height: 16 });
    assert_eq!(narrow.detail, None);
    assert_eq!(narrow.list, Rect { x: 0, y: 3, width: 50, height: 16 });
    assert_eq!(narrow.page_size, 14);
}

#[test]
fn board_lanes_and_progress_rows() {
    let lanes = board_lanes(Rect { x: 0, y: 3, width: 90, height: 22 });
    assert_eq!(lanes.len(), 3);
    assert_eq!(lanes.iter().map(|r| r.width).sum::<u16>(), 90);
    assert!(lanes.iter().all(|r| r.width == 30 && r.height == 22 && r.y == 3));
    let (title, gauge) = running_rows(Rect { x: 22, y: 10, width: 46, height: 5 });
    assert_eq!(title, Rect { x: 23, y: 11, width: 44, height: 1 });
    assert_eq!(gauge, Rect { x: 23, y: 12, width: 44, height: 1 });
}

#[test]
fn a_task_row_has_mark_priority_badge_and_title() {
    let app = App::new();
    let row = task_row(&app.tasks[3]);
    assert_eq!(
        row,
        vec![
            (RowPart::Mark, "[ ] ".to_string()),
            (RowPart::Priority, "HIGH ".to_string()),
            (RowPart::Overdue, "! ".to_string()),
            (RowPart::Title, "Handle SIGWINCH".to_string()),
        ]
    );
    assert_eq!(task_row(&app.tasks[0]).len(), 3, "no badge when not overdue");
}

#[test]
fn the_detail_pane_conceals_only_the_secret() {
    let app = App::new();
    let lines = detail_lines(&app.tasks[10]);
    let texts: Vec<(String, String, bool)> =
        lines.iter().map(|(_, l, v, c)| (l.clone(), v.clone(), *c)).collect();
    assert_eq!(texts[0], ("title    ".to_string(), "Rotate the cafe\u{301} credentials".to_string(), false));
    assert_eq!(texts[1], ("status   ".to_string(), "open".to_string(), false));
    assert_eq!(texts[2], ("priority ".to_string(), "HIGH".to_string(), false));
    assert_eq!(texts[3], ("tags     ".to_string(), "ops, secret".to_string(), false));
    assert_eq!(texts[4], ("secret   ".to_string(), "hunter2-rotate-me".to_string(), true));
    assert_eq!(lines[5].0, DetailField::Blank);
    assert_eq!(lines[6].0, DetailField::Notes);
    assert_eq!(lines.iter().filter(|l| l.3).count(), 1);
    assert_eq!(detail_link_row(&app.tasks[10]), None);
}

#[test]
fn the_detail_pane_places_the_link() {
    let app = App::new();
    let lines = detail_lines(&app.tasks[0]);
    assert_eq!(lines.len(), 7);
    assert_eq!(lines[4].0, DetailField::Link);
    assert_eq!(lines[4].2, "open ref");
    assert_eq!(detail_link_row(&app.tasks[0]), Some(4));
    let pane = Rect { x: 40, y: 3, width: 50, height: 22 };
    assert_eq!(
        detail_link_hint(&app.tasks[0], pane),
        Some((50, 8, "open ref".to_string(), "https://example.invalid/rfc/pty-reader".to_string()))
    );
    let low = Rect { x: 40, y: 3, width: 50, height: 6 };
    assert_eq!(detail_link_hint(&app.tasks[0], low), None);
    assert_eq!(detail_link_hint(&app.tasks[1], pane), None);
    let linked_secret = Task::new("x", false, Priority::Low, &[], "").secret("s").url("u");
    assert_eq!(detail_link_row(&linked_secret), Some(5));
}

#[test]
fn the_status_bar_segments() {
    let mut app = App::new();
    let text = |app: &App| status_segments(app).into_iter().map(|(_, t)| t).collect::<String>();
    assert_eq!(text(&app), " NORMAL  Tasks 1/13 ? help  q quit");
    app.on_key(taskboard::model::Key { code: taskboard::model::KeyCode::Char('T'), ctrl: false });
    let segs = status_segments(&app);
    assert_eq!(segs[3], (Segment::Contrast, "HC ".to_string()));
    assert_eq!(segs[4], (Segment::Toast, "· high contrast on ".to_string()));
    app.filter = "core".to_string();
    assert_eq!(status_segments(&app)[3], (Segment::Filter, "filter:core ".to_string()));
    assert!(!status_badge_dimmed(&app));
    app.on_focus(false);
    assert!(status_badge_dimmed(&app));
}

#[test]
fn the_filter_cursor_stays_on_the_last_column() {
    let input = Rect { x: 0, y: 24, width: 90, height: 1 };
    assert_eq!(filter_cursor_x(input, 0), 1);
    assert_eq!(filter_cursor_x(input, 4), 5);
    assert_eq!(filter_cursor_x(input, 88), 89);
    assert_eq!(filter_cursor_x(input, 65_000), 89);
    assert_eq!(filter_cursor_x(input, usize::MAX), 89);
    let edge = Rect { x: 65_530, y: 0, width: 10, height: 1 };
    assert_eq!(filter_cursor_x(edge, 2), 65_533);
    assert_eq!(filter_cursor_x(edge, 100), 65_534);
}

#[test]
fn looks_and_terminal_restore() {
    let app = App::new();
    let look = taskboard::ui::task_look(&app.tasks[2]);
    assert_eq!(look.tone, Lane::Doing);
    assert!(!look.struck);
    assert!(taskboard::ui::task_look(&app.tasks[0]).struck);
    assert!(taskboard::ui::lane_focused(&app, 0));
    assert!(!taskboard::ui::lane_focused(&app, 1));
    assert_eq!(taskboard::escape::restore_sequence(), "\x1b]104\x1b\\\x1b[0 q");
    let probe = Args { probe_sync: true, probe_caps: false };
    assert!(!probe.synchronized(false));
    assert!(probe.synchronized(true));
    assert!(Args { probe_sync: false, probe_caps: false }.synchronized(false));
}
