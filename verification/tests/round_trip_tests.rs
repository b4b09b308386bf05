use productivo::app::{App, Screen};
use productivo::calendar::{self, CalendarState};
use productivo::command::{InputMode, Key};
use productivo::config::{Config, PomodoroCfg};
use productivo::date::Date;
use productivo::pomodoro::{self, PomodoroState};
use productivo::stats::{week_rows, WeekStats};
use productivo::theme::Theme;
use productivo::todos::{self, overdue, todo_mark, todo_segments, Row, Todo, TodosState};

fn d(s: &str) -> Date {
    Date::parse(s).unwrap()
}

#[test]
fn tab_then_backtab_keeps_the_focus() {
    let mut a = App::new(Config::default(), None, d("2026-07-15"));
    for start in 0..7 {
        while a.focus != start {
            a.handle_key(Key::Tab, 0);
        }
        a.handle_key(Key::Tab, 0);
        a.handle_key(Key::BackTab, 0);
        assert_eq!(a.focus, start);
        assert_eq!(a.screen, Screen::Home);
    }
}

#[test]
fn left_right_and_up_down_come_back() {
    let today = d("2026-07-01");
    let mut st = CalendarState::new(today);
    let mut mode = InputMode::Normal;
    let mut status = None;
    calendar::handle_key(&mut st, &mut mode, &mut status, Key::Left, today);
    assert_eq!(st.cursor, d("2026-06-30"));
    calendar::handle_key(&mut st, &mut mode, &mut status, Key::Right, today);
    assert_eq!(st.cursor, today);
    calendar::handle_key(&mut st, &mut mode, &mut status, Key::Up, today);
    assert_eq!(st.cursor, d("2026-06-24"));
    calendar::handle_key(&mut st, &mut mode, &mut status, Key::Down, today);
    assert_eq!(st.cursor, today);
    assert_eq!(status, None);
}

#[test]
fn length_keys_undo_each_other() {
    let mut st = PomodoroState::new();
    for f in [1u64, 5, 25, 1435, 5000] {
        let mut cfg = PomodoroCfg { focus_min: f, break_min: 5 };
        pomodoro::handle_key(&mut st, &mut cfg, Key::Char('+'), 0);
        assert_eq!(cfg.focus_min, f + 5);
        pomodoro::handle_key(&mut st, &mut cfg, Key::Char('-'), 0);
        assert_eq!(cfg.focus_min, f);
    }
    for b in [1u64, 5, 1439, 5000] {
        let mut cfg = PomodoroCfg { focus_min: 25, break_min: b };
        pomodoro::handle_key(&mut st, &mut cfg, Key::Char(']'), 0);
        assert_eq!(cfg.break_min, b + 1);
        pomodoro::handle_key(&mut st, &mut cfg, Key::Char('['), 0);
        assert_eq!(cfg.break_min, b);
    }
    // five minutes off, down to one minute where that would leave none
    let mut cfg = PomodoroCfg { focus_min: 8, break_min: 1 };
    pomodoro::handle_key(&mut st, &mut cfg, Key::Char('-'), 0);
    assert_eq!(cfg.focus_min, 3);
    pomodoro::handle_key(&mut st, &mut cfg, Key::Char('-'), 0);
    assert_eq!(cfg.focus_min, 1);
    pomodoro::handle_key(&mut st, &mut cfg, Key::Char('['), 0);
    assert_eq!(cfg.break_min, 1);
    // at the top the length stops at the largest u64
    let mut cfg = PomodoroCfg { focus_min: u64::MAX - 2, break_min: u64::MAX };
    pomodoro::handle_key(&mut st, &mut cfg, Key::Char('+'), 0);
    assert_eq!(cfg.focus_min, u64::MAX);
    pomodoro::handle_key(&mut st, &mut cfg, Key::Char(']'), 0);
    assert_eq!(cfg.break_min, u64::MAX);
}

#[test]
fn grouping_twice_is_no_grouping() {
    let mut st = TodosState::new();
    let mut mode = InputMode::Normal;
    let mut status = None;
    todos::handle_key(&mut st, &mut mode, &mut status, Key::Char('g'), 25);
    assert!(st.group_by_project);
    todos::handle_key(&mut st, &mut mode, &mut status, Key::Char('g'), 25);
    assert!(!st.group_by_project);
}

#[test]
fn todo_marks() {
    let t = Theme::default();
    let today = d("2026-07-15");
    let mut td = Todo {
        id: 1,
        title: "x".into(),
        notes: String::new(),
        priority: 0,
        due_date: Some(d("2026-07-14")),
        project: None,
        tags: String::new(),
        parent_id: None,
        recur_rule: None,
        done_at: None,
        created_at: String::new(),
    };
    assert!(overdue(&td, today));
    assert_eq!(todo_mark(&td, today, &t), ("○", t.red));
    td.due_date = Some(today);
    assert!(!overdue(&td, today));
    assert_eq!(todo_mark(&td, today, &t), ("○", t.muted));
    td.priority = 1;
    assert_eq!(todo_mark(&td, today, &t), ("○", t.yellow));
    td.priority = 2;
    assert_eq!(todo_mark(&td, today, &t), ("◉", t.red));
    td.done_at = Some("2026-07-15T10:00:00Z".into());
    assert_eq!(todo_mark(&td, today, &t), ("✔", t.green));
    td.due_date = Some(d("2026-07-01"));
    assert!(!overdue(&td, today));
}

#[test]
fn dates_are_written_as_chrono_writes_them() {
    assert_eq!(Date::from_ymd(2026, 7, 15).unwrap().to_text(), "2026-07-15");
    assert_eq!(Date::from_ymd(99, 1, 2).unwrap().to_text(), "0099-01-02");
    assert_eq!(Date::from_ymd(12345, 6, 7).unwrap().to_text(), "+12345-06-07");
    assert_eq!(Date::from_ymd(-5, 11, 30).unwrap().to_text(), "-0005-11-30");
    assert_eq!(Date::from_ymd(-262143, 1, 1).unwrap().to_text(), "-262143-01-01");
}

#[test]
fn calendar_dates_exist_exactly_when_valid() {
    assert!(Date::from_ymd(2024, 2, 29).is_some());
    assert!(Date::from_ymd(2000, 2, 29).is_some());
    assert!(Date::from_ymd(2026, 2, 29).is_none());
    assert!(Date::from_ymd(1900, 2, 29).is_none());
    assert!(Date::from_ymd(-4, 2, 29).is_some());
    assert!(Date::from_ymd(2026, 4, 31).is_none());
    assert!(Date::from_ymd(2026, 13, 1).is_none());
    assert!(Date::from_ymd(2026, 1, 0).is_none());
    assert!(Date::from_ymd(262142, 12, 31).is_some());
    assert!(Date::from_ymd(262143, 1, 1).is_none());
    assert!(Date::from_ymd(-262143, 1, 1).is_some());
    assert!(Date::from_ymd(-262144, 12, 31).is_none());
}

#[test]
fn todo_line_segments() {
    let t = Theme::default();
    let today = d("2026-07-15");
    let todo = Todo {
        id: 1,
        title: "x".into(),
        notes: String::new(),
        priority: 0,
        due_date: Some(d("2026-07-14")),
        project: Some("blog".into()),
        tags: String::new(),
        parent_id: None,
        recur_rule: Some("daily".into()),
        done_at: None,
        created_at: String::new(),
    };
    let row = Row { todo: todo.clone(), is_subtask: false, sub_counts: Some((1, 3)) };
    assert_eq!(
        todo_segments(&row, today, &t, true),
        vec![
            (" ○ ".to_string(), t.red, false),
            ("x".to_string(), t.red, true),
            (" ↻".to_string(), t.blue, false),
            (" [2/3]".to_string(), t.muted, false),
            ("  2026-07-14".to_string(), t.red, false),
            ("  #blog".to_string(), t.blue, false),
        ]
    );
    let mut plain = todo;
    plain.due_date = Some(today);
    plain.recur_rule = None;
    plain.project = None;
    plain.done_at = Some("2026-07-15".into());
    let sub = Row { todo: plain, is_subtask: true, sub_counts: None };
    assert_eq!(
        todo_segments(&sub, today, &t, false),
        vec![
            ("    ".to_string(), t.text, false),
            (" ✔ ".to_string(), t.green, false),
            ("x".to_string(), t.muted, false),
            ("  2026-07-15".to_string(), t.peach, false),
        ]
    );
}

#[test]
fn week_review_rows() {
    use_week_rows();
}

fn use_week_rows() {
    let cur = WeekStats { habit_pct: 40, todos_done: 3, focus_min: 400 };
    let prev = WeekStats { habit_pct: 50, todos_done: 3, focus_min: 335 };
    assert_eq!(
        week_rows(cur, prev),
        vec![
            ("habits         40% ".to_string(), "▼ -10".to_string(), false),
            ("todos closed   3 ".to_string(), "▲ +0".to_string(), true),
            ("focus          6h 40m ".to_string(), "▲ +1h 05m".to_string(), true),
        ]
    );
    let rows = week_rows(prev, cur);
    assert_eq!(rows[2], ("focus          5h 35m ".to_string(), "▼ -1h 05m".to_string(), false));
}
