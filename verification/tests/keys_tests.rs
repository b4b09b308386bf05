use productivo::app::{screen_for, App, Screen};
use productivo::calendar::{self, CalendarState, Event};
use productivo::command::{Effect, InputMode, Key};
use productivo::config::Config;
use productivo::date::Date;
use productivo::habits::{self, Habit, HabitsState};
use productivo::ideas::{self, badge, next_status, Idea, IdeasState};
use productivo::stats::{Range, StatsState};
use productivo::subs::{self, SubEntry, SubKind, SubsState};
use productivo::theme::Theme;
use productivo::todos::{self, Row, Todo, TodosState};

fn d(s: &str) -> Date {
    Date::parse(s).unwrap()
}

fn habit(id: i64, name: &str) -> Habit {
    Habit { id, name: name.into(), position: id, archived: false }
}

fn todo(id: i64, title: &str) -> Todo {
    Todo {
        id,
        title: title.into(),
        notes: String::new(),
        priority: 0,
        due_date: None,
        project: None,
        tags: String::new(),
        parent_id: None,
        recur_rule: None,
        done_at: None,
        created_at: "2026-07-01".into(),
    }
}

fn type_text(f: &mut dyn FnMut(Key), s: &str) {
    for c in s.chars() {
        f(Key::Char(c));
    }
}

#[test]
fn habits_select_toggle_and_add() {
    let mut st = HabitsState::new();
    st.load(vec![habit(1, "gym"), habit(2, "read")], vec![], vec![0, 3]);
    let mut mode = InputMode::Normal;
    let today = d("2026-07-15");
    habits::handle_key(&mut st, &mut mode, Key::Down, today);
    assert_eq!(st.selected, 1);
    habits::handle_key(&mut st, &mut mode, Key::Char('j'), today);
    assert_eq!(st.selected, 1);
    let c = habits::handle_key(&mut st, &mut mode, Key::Char(' '), today);
    assert_eq!(c.effect, Effect::HabitToggle { id: 2, day: today });
    assert!(c.reload.habits);
    // view yesterday: toggling applies to yesterday
    habits::handle_key(&mut st, &mut mode, Key::Char('y'), today);
    assert_eq!(st.day, Some(d("2026-07-14")));
    let c = habits::handle_key(&mut st, &mut mode, Key::Char(' '), today);
    assert_eq!(c.effect, Effect::HabitToggle { id: 2, day: d("2026-07-14") });
    habits::handle_key(&mut st, &mut mode, Key::Char('y'), today);
    assert_eq!(st.day, None);
    // add a habit
    habits::handle_key(&mut st, &mut mode, Key::Char('a'), today);
    assert_eq!(mode, InputMode::Editing);
    let mut send = |k: Key| {
        habits::handle_key(&mut st, &mut mode, k, today);
    };
    type_text(&mut send, "  stretch x");
    send(Key::Backspace);
    let c = habits::handle_key(&mut st, &mut mode, Key::Enter, today);
    assert_eq!(c.effect, Effect::HabitAdd { name: "stretch".into() });
    assert_eq!(mode, InputMode::Normal);
    assert_eq!(st.input, None);
}

#[test]
fn habits_reorder_follows_the_habit() {
    let mut st = HabitsState::new();
    st.load(vec![habit(1, "a"), habit(2, "b"), habit(3, "c")], vec![], vec![0, 0, 0]);
    let mut mode = InputMode::Normal;
    let today = d("2026-07-15");
    let c = habits::handle_key(&mut st, &mut mode, Key::Char('J'), today);
    assert_eq!(c.effect, Effect::HabitMove { id: 1, delta: 1 });
    st.moved(true, true);
    assert_eq!(st.selected, 1);
    st.moved(false, false);
    assert_eq!(st.selected, 1);
    // a reload with fewer habits keeps the selection in the list
    st.selected = 2;
    st.load(vec![habit(1, "a")], vec![], vec![0]);
    assert_eq!(st.selected, 0);
}

#[test]
fn habit_streaks() {
    let today = d("2026-07-15");
    let days = vec![d("2026-07-14"), d("2026-07-13"), d("2026-07-11")];
    assert_eq!(habits::current_streak(&days, today), 2);
    let days = vec![d("2026-07-15"), d("2026-07-14")];
    assert_eq!(habits::current_streak(&days, today), 2);
    assert_eq!(habits::current_streak(&vec![], today), 0);
}

#[test]
fn ideas_capture_and_cycle() {
    let mut st = IdeasState::new();
    st.load(vec![Idea { id: 4, title: "t".into(), body: "b".into(), status: "spark".into(), created_at: "x".into() }]);
    let mut mode = InputMode::Normal;
    let c = ideas::handle_key(&mut st, &mut mode, Key::Char('s'));
    assert_eq!(c.effect, Effect::IdeaSetStatus { id: 4, status: "brewing".into() });
    ideas::handle_key(&mut st, &mut mode, Key::Enter);
    assert_eq!(st.body_edit, Some("b".into()));
    ideas::handle_key(&mut st, &mut mode, Key::Char('!'));
    let c = ideas::handle_key(&mut st, &mut mode, Key::Enter);
    assert_eq!(c.effect, Effect::IdeaSetBody { id: 4, body: "b!".into() });
    let c = ideas::handle_key(&mut st, &mut mode, Key::Char('d'));
    assert_eq!(c.effect, Effect::IdeaDelete { id: 4 });
    ideas::handle_key(&mut st, &mut mode, Key::Char('a'));
    ideas::handle_key(&mut st, &mut mode, Key::Char(' '));
    let c = ideas::handle_key(&mut st, &mut mode, Key::Enter);
    assert_eq!(c.effect, Effect::Nothing);
}

#[test]
fn idea_status_cycle_comes_back() {
    let mut s = "spark".to_string();
    let mut seen = vec![];
    for _ in 0..5 {
        s = next_status(&s).to_string();
        seen.push(s.clone());
    }
    assert_eq!(seen, vec!["brewing", "active", "shipped", "dropped", "spark"]);
    assert_eq!(next_status("odd"), "spark");
    let t = Theme::default();
    assert_eq!(badge(&t, "active"), ("▶", t.blue));
    assert_eq!(badge(&t, "nope"), ("?", t.muted));
}

fn todos_state(items: Vec<Todo>) -> TodosState {
    let mut st = TodosState::new();
    let counts = items.iter().map(|_| None).collect();
    st.set_rows(items, counts, vec![]);
    st
}

#[test]
fn todo_form_validates_and_saves() {
    let mut st = todos_state(vec![]);
    let mut mode = InputMode::Normal;
    let mut status = None;
    todos::handle_key(&mut st, &mut mode, &mut status, Key::Char('a'), 25);
    assert!(st.form.is_some());
    // empty title
    todos::handle_key(&mut st, &mut mode, &mut status, Key::Enter, 25);
    assert_eq!(status, Some("title is required".into()));
    for c in "ship it".chars() {
        todos::handle_key(&mut st, &mut mode, &mut status, Key::Char(c), 25);
    }
    todos::handle_key(&mut st, &mut mode, &mut status, Key::Tab, 25);
    todos::handle_key(&mut st, &mut mode, &mut status, Key::Tab, 25);
    // priority field: typing is ignored, arrows cycle 0 -> 1 -> 2 -> 0
    todos::handle_key(&mut st, &mut mode, &mut status, Key::Char('9'), 25);
    todos::handle_key(&mut st, &mut mode, &mut status, Key::Right, 25);
    todos::handle_key(&mut st, &mut mode, &mut status, Key::Right, 25);
    assert_eq!(st.form.as_ref().unwrap().fields[2], "2");
    todos::handle_key(&mut st, &mut mode, &mut status, Key::Tab, 25);
    for c in "2026-13-01".chars() {
        todos::handle_key(&mut st, &mut mode, &mut status, Key::Char(c), 25);
    }
    todos::handle_key(&mut st, &mut mode, &mut status, Key::Enter, 25);
    assert_eq!(status, Some("due must be YYYY-MM-DD".into()));
    for _ in 0..5 {
        todos::handle_key(&mut st, &mut mode, &mut status, Key::Backspace, 25);
    }
    for c in "07-20".chars() {
        todos::handle_key(&mut st, &mut mode, &mut status, Key::Char(c), 25);
    }
    todos::handle_key(&mut st, &mut mode, &mut status, Key::BackTab, 25);
    todos::handle_key(&mut st, &mut mode, &mut status, Key::BackTab, 25);
    todos::handle_key(&mut st, &mut mode, &mut status, Key::BackTab, 25);
    todos::handle_key(&mut st, &mut mode, &mut status, Key::BackTab, 25);
    for c in "weekly:xyz".chars() {
        todos::handle_key(&mut st, &mut mode, &mut status, Key::Char(c), 25);
    }
    todos::handle_key(&mut st, &mut mode, &mut status, Key::Enter, 25);
    assert_eq!(status, Some("repeat: daily | weekly:mon,thu | every:3d".into()));
    for _ in 0..3 {
        todos::handle_key(&mut st, &mut mode, &mut status, Key::Backspace, 25);
    }
    for c in "fri".chars() {
        todos::handle_key(&mut st, &mut mode, &mut status, Key::Char(c), 25);
    }
    status = None;
    let c = todos::handle_key(&mut st, &mut mode, &mut status, Key::Enter, 25);
    match c.effect {
        Effect::TodoSave { todo, editing_id } => {
            assert_eq!(editing_id, None);
            assert_eq!(todo.title, "ship it");
            assert_eq!(todo.priority, 2);
            assert_eq!(todo.due_date, Some(d("2026-07-20")));
            assert_eq!(todo.recur_rule, Some("weekly:fri".into()));
            assert_eq!(todo.project, None);
        }
        other => panic!("unexpected {other:?}"),
    }
    assert!(st.form.is_none());
    assert_eq!(mode, InputMode::Normal);
    assert_eq!(status, None);
}

#[test]
fn todo_completion_rules_and_undo() {
    let mut parent = todo(1, "parent");
    parent.recur_rule = Some("daily".into());
    let mut st = TodosState::new();
    st.set_rows(vec![parent, todo(2, "plain")], vec![Some((2, 3)), Some((0, 0))], vec![]);
    assert_eq!(st.items[0].sub_counts, Some((2, 3)));
    assert_eq!(st.items[1].sub_counts, None);
    let mut mode = InputMode::Normal;
    let mut status = None;
    let c = todos::handle_key(&mut st, &mut mode, &mut status, Key::Char(' '), 25);
    assert_eq!(c.effect, Effect::Nothing);
    assert_eq!(status, Some("2 subtasks still open — finish them first".into()));
    todos::handle_key(&mut st, &mut mode, &mut status, Key::Down, 25);
    let c = todos::handle_key(&mut st, &mut mode, &mut status, Key::Char('x'), 25);
    assert_eq!(c.effect, Effect::TodoComplete { id: 2, recurring: false, parent: None });
    st.completed(&mut status, 2, Some(9), true, None);
    assert_eq!(status, Some("↻ next occurrence scheduled".into()));
    let c = todos::handle_key(&mut st, &mut mode, &mut status, Key::Char('u'), 25);
    assert_eq!(c.effect, Effect::TodoUncomplete { id: 2, spawned: Some(9) });
    let c = todos::handle_key(&mut st, &mut mode, &mut status, Key::Char('u'), 25);
    assert_eq!(c.effect, Effect::Nothing);
    st.completed(&mut status, 3, None, false, Some(0));
    assert_eq!(status, Some("all subtasks done — space on parent to close it".into()));
}

#[test]
fn todo_filter_group_and_expand() {
    let mut a = todo(1, "Write Post");
    a.project = Some("blog".into());
    let mut b = todo(2, "water plants");
    b.tags = "home,garden".into();
    let mut c = todo(3, "draft outline");
    c.project = Some("Blog".into());
    let mut e = todo(4, "edit");
    e.project = Some("blog".into());
    let mut st = TodosState::new();
    st.filter = Some("BLOG".into());
    let shown = st.visible(vec![a.clone(), b.clone(), c.clone(), e.clone()]);
    let ids: Vec<i64> = shown.iter().map(|t| t.id).collect();
    assert_eq!(ids, vec![1, 3, 4]);
    st.filter = None;
    st.group_by_project = true;
    let shown = st.visible(vec![a.clone(), b.clone(), c.clone(), e.clone()]);
    let ids: Vec<i64> = shown.iter().map(|t| t.id).collect();
    // no project first, then "Blog" < "blog"; equal projects keep their order
    assert_eq!(ids, vec![2, 3, 1, 4]);
    st.expanded = Some(3);
    let mut sub = todo(8, "sub");
    sub.parent_id = Some(3);
    st.set_rows(shown, vec![None, Some((1, 1)), None, None], vec![sub]);
    let rows: Vec<(i64, bool)> = st.items.iter().map(|r: &Row| (r.todo.id, r.is_subtask)).collect();
    assert_eq!(rows, vec![(2, false), (3, false), (8, true), (1, false), (4, false)]);
    // subtask rows add a subtask under the same parent, one level only
    st.selected = 2;
    let mut mode = InputMode::Normal;
    let mut status = None;
    todos::handle_key(&mut st, &mut mode, &mut status, Key::Char('A'), 25);
    assert_eq!(st.form.as_ref().unwrap().parent_id, Some(3));
}

#[test]
fn todo_edit_form_and_pomodoro_link() {
    let mut t = todo(5, "edit me");
    t.priority = 1;
    t.due_date = Some(d("2026-08-01"));
    t.project = Some("p".into());
    let mut st = todos_state(vec![t]);
    let mut mode = InputMode::Normal;
    let mut status = None;
    let c = todos::handle_key(&mut st, &mut mode, &mut status, Key::Char('p'), 30);
    assert_eq!(
        c.effect,
        Effect::PomoStart { kind: productivo::pomodoro::Kind::Focus, minutes: 30, todo_id: Some(5), todo_title: Some("edit me".into()) }
    );
    todos::handle_key(&mut st, &mut mode, &mut status, Key::Char('e'), 30);
    let f = st.form.as_ref().unwrap();
    assert_eq!(f.fields, vec!["edit me", "", "1", "2026-08-01", "p", "", ""]);
    assert_eq!(f.editing_id, Some(5));
    todos::handle_key(&mut st, &mut mode, &mut status, Key::Esc, 30);
    assert!(st.form.is_none());
    // live filter typing
    todos::handle_key(&mut st, &mut mode, &mut status, Key::Char('/'), 30);
    let c = todos::handle_key(&mut st, &mut mode, &mut status, Key::Char('q'), 30);
    assert!(c.reload.todos);
    assert_eq!(st.filter, Some("q".into()));
    todos::handle_key(&mut st, &mut mode, &mut status, Key::Esc, 30);
    assert_eq!(st.filter, None);
    assert!(!st.filter_editing);
}

#[test]
fn calendar_navigation_and_events() {
    let today = d("2026-07-15");
    let mut st = CalendarState::new(today);
    let mut mode = InputMode::Normal;
    let mut status = None;
    let c = calendar::handle_key(&mut st, &mut mode, &mut status, Key::Char(']'), today);
    assert_eq!(st.cursor, d("2026-08-01"));
    assert!(c.reload.calendar);
    let c = calendar::handle_key(&mut st, &mut mode, &mut status, Key::Char('l'), today);
    assert_eq!(st.cursor, d("2026-08-02"));
    assert!(!c.reload.calendar);
    calendar::handle_key(&mut st, &mut mode, &mut status, Key::Char('['), today);
    assert_eq!(st.cursor, d("2026-07-31"));
    calendar::handle_key(&mut st, &mut mode, &mut status, Key::Char('t'), today);
    assert_eq!(st.cursor, today);
    let (a, b) = st.load_range().unwrap();
    assert_eq!((a, b), (d("2026-07-01"), d("2026-08-07")));
    let ev = |id, date| Event { id, title: "e".into(), date, time: None, category: "work".into(), color: "themed".into(), notes: String::new() };
    st.load(vec![ev(1, d("2026-07-14")), ev(2, today), ev(3, today)], vec![]);
    assert_eq!(st.events_on(today), vec![1, 2]);
    let c = calendar::handle_key(&mut st, &mut mode, &mut status, Key::Char('d'), today);
    assert_eq!(c.effect, Effect::EventDelete { id: 2 });
    // the event form checks the time
    calendar::handle_key(&mut st, &mut mode, &mut status, Key::Char('a'), today);
    for k in [Key::Char('G'), Key::Char('o'), Key::Tab, Key::Char('2'), Key::Char('5'), Key::Char(':'), Key::Char('0'), Key::Char('0')] {
        calendar::handle_key(&mut st, &mut mode, &mut status, k, today);
    }
    calendar::handle_key(&mut st, &mut mode, &mut status, Key::Enter, today);
    assert_eq!(status, Some("time must be HH:MM".into()));
    calendar::handle_key(&mut st, &mut mode, &mut status, Key::Backspace, today);
    calendar::handle_key(&mut st, &mut mode, &mut status, Key::Backspace, today);
    calendar::handle_key(&mut st, &mut mode, &mut status, Key::Backspace, today);
    calendar::handle_key(&mut st, &mut mode, &mut status, Key::Backspace, today);
    calendar::handle_key(&mut st, &mut mode, &mut status, Key::Backspace, today);
    for c in "09:30".chars() {
        calendar::handle_key(&mut st, &mut mode, &mut status, Key::Char(c), today);
    }
    let c = calendar::handle_key(&mut st, &mut mode, &mut status, Key::Enter, today);
    assert_eq!(
        c.effect,
        Effect::EventAdd { title: "Go".into(), date: today, time: Some("09:30".into()), category: "general".into() }
    );
}

#[test]
fn month_grid_of_july_2026() {
    let cells = calendar::month_grid(d("2026-07-15")).unwrap();
    // July 1st 2026 is a Wednesday: the grid starts on Monday June 29th
    assert_eq!(cells[0], d("2026-06-29"));
    assert_eq!(cells.len(), 35);
    assert_eq!(*cells.last().unwrap(), d("2026-08-02"));
    assert_eq!(calendar::cell_marks(5, 1, 5), (3, false, 1, 1));
    assert_eq!(calendar::cell_marks(1, 2, 4), (1, true, 1, 1));
    let t = Theme::default();
    assert_eq!(calendar::category_color(&t, "deadline"), t.red);
    assert_eq!(calendar::category_color(&t, "other"), t.accent);
}

#[test]
fn subs_add_and_delete() {
    let mut st = SubsState::new();
    st.load(vec![SubEntry { id: 3, name: "n".into(), kind: SubKind::Tool, yearly: false, renew_day: None }]);
    let mut mode = InputMode::Normal;
    let c = subs::handle_key(&mut st, &mut mode, Key::Char('d'));
    assert_eq!(c.effect, Effect::SubDelete { id: 3 });
    subs::handle_key(&mut st, &mut mode, Key::Char('t'));
    subs::handle_key(&mut st, &mut mode, Key::Char('r'));
    subs::handle_key(&mut st, &mut mode, Key::Char('g'));
    let c = subs::handle_key(&mut st, &mut mode, Key::Enter);
    assert_eq!(c.effect, Effect::SubAdd { text: "rg".into(), is_sub: false });
}

fn app() -> App {
    App::new(Config::default(), None, d("2026-07-15"))
}

#[test]
fn app_focus_cycles_through_all_home_slots() {
    let mut a = app();
    for _ in 0..7 {
        a.handle_key(Key::Tab, 0);
    }
    assert_eq!(a.focus, 0);
    a.handle_key(Key::BackTab, 0);
    assert_eq!(a.focus, 6);
    assert_eq!(a.active_module(), Screen::Subs);
    a.handle_key(Key::Enter, 0);
    assert_eq!(a.screen, Screen::Subs);
    a.handle_key(Key::Esc, 0);
    assert_eq!(a.screen, Screen::Home);
}

#[test]
fn app_digits_and_quit() {
    let mut a = app();
    a.handle_key(Key::Char('4'), 0);
    assert_eq!(a.screen, Screen::Todos);
    a.handle_key(Key::Char('7'), 0);
    assert_eq!(a.screen, Screen::Subs);
    a.handle_key(Key::Char('1'), 0);
    assert_eq!(a.screen, Screen::Habits);
    a.habits.day = Some(d("2026-07-14"));
    let c = a.handle_key(Key::Esc, 0);
    assert!(c.reload.habits);
    assert_eq!(a.habits.day, None);
    a.handle_key(Key::Char('q'), 0);
    assert!(a.should_quit);
    assert_eq!(screen_for("pomodoro"), Screen::Pomodoro);
    assert_eq!(screen_for("subs"), Screen::Stats);
}

#[test]
fn app_keys_reach_the_focused_panel_and_editing_blocks_globals() {
    let mut a = app();
    // focus the ideas panel (third) and start typing: 'q' is text, not quit
    a.handle_key(Key::Tab, 0);
    a.handle_key(Key::Tab, 0);
    a.handle_key(Key::Char('a'), 0);
    assert_eq!(a.mode, InputMode::Editing);
    a.handle_key(Key::Char('q'), 0);
    assert!(!a.should_quit);
    let c = a.handle_key(Key::Enter, 0);
    assert_eq!(c.effect, Effect::IdeaAdd { title: "q".into() });
    // pomodoro lengths from its panel
    a.handle_key(Key::Char('5'), 0);
    a.handle_key(Key::Char('+'), 0);
    assert_eq!(a.config.pomodoro.focus_min, 30);
    a.handle_key(Key::Char('['), 0);
    a.handle_key(Key::Char('['), 0);
    a.handle_key(Key::Char('['), 0);
    a.handle_key(Key::Char('['), 0);
    a.handle_key(Key::Char('['), 0);
    assert_eq!(a.config.pomodoro.break_min, 1);
    let c = a.handle_key(Key::Char('s'), 0);
    assert_eq!(c.effect, Effect::PomoStart { kind: productivo::pomodoro::Kind::Focus, minutes: 30, todo_id: None, todo_title: None });
    a.session_started(11, productivo::pomodoro::Kind::Focus, 30, None, 1_000);
    assert_eq!(a.session_due(1_000 + 29 * 60_000), None);
    assert_eq!(a.session_due(1_000 + 30 * 60_000), Some((11, productivo::pomodoro::Kind::Focus)));
    a.session_finished(productivo::pomodoro::Kind::Focus, Some(3));
    assert!(a.pomodoro.suggest_break);
    assert_eq!(a.pomodoro.today_count, 3);
    assert_eq!(a.status, Some("focus done — s starts a 5m break".into()));
    let c = a.handle_key(Key::Char('s'), 0);
    assert_eq!(c.effect, Effect::PomoStart { kind: productivo::pomodoro::Kind::Break, minutes: 1, todo_id: None, todo_title: None });
    // stats range cycles
    a.handle_key(Key::Char('6'), 0);
    a.handle_key(Key::Char('r'), 0);
    assert_eq!(a.stats.range, Range::Month);
    a.handle_key(Key::Char('c'), 0);
    assert_eq!(a.stats.skin, productivo::pet::Skin::Toast);
    assert_eq!(a.stats.range, Range::Month);
    let s = StatsState::new();
    assert_eq!(s.range, Range::Week);
    assert_eq!(s.skin, productivo::pet::Skin::Comet);
    assert_eq!(s.reaction, None);
    a.handle_key(Key::Char('p'), 0);
    assert_eq!(a.stats.reaction, Some(productivo::pet::Reaction::Petted));
    a.handle_key(Key::Char('b'), 0);
    assert_eq!(a.stats.reaction, Some(productivo::pet::Reaction::Booped));
    a.handle_key(Key::Char('r'), 0);
    assert_eq!(a.stats.reaction, None);
    assert_eq!(a.stats.skin, productivo::pet::Skin::Toast);
}

#[test]
fn app_new_day_resets_the_habit_view() {
    let mut a = app();
    a.habits.day = Some(d("2026-07-14"));
    assert!(!a.new_day(d("2026-07-15")));
    assert_eq!(a.habits.day, Some(d("2026-07-14")));
    assert!(a.new_day(d("2026-07-16")));
    assert_eq!(a.today, d("2026-07-16"));
    assert_eq!(a.habits.day, None);
    a.save_failed("disk full");
    assert_eq!(a.status, Some("save failed: disk full".into()));
}
