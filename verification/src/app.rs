use crate::calendar::{calendar_key_step, CalendarState};
use crate::command::{no_reload, nothing, quiet, reload_none, Command, Effect, InputMode, Key, Reload};
use crate::config::Config;
use crate::date::{Date, MIN_DAYS};
use crate::habits::{habits_key_step, HabitsState};
use crate::ideas::{ideas_key_step, IdeasState};
use crate::pomodoro::{fits_i64, clock_at, remaining_at, pomodoro_key_step, resumable_at, Kind, PomodoroState, MINUTE_MS};
use crate::stats::{stats_key_step, StatsState};
use crate::subs::{subs_key_step, SubsState};
use crate::text::{concat, text_eq};
use crate::theme::Theme;
use crate::todos::{todos_key_step, TodosState};
use vstd::prelude::*;

verus! {

/// A screen: the home dashboard or one module zoomed in.
#[derive(Clone, Copy, Debug, PartialEq, Eq, Structural)]
pub enum Screen {
    Home,
    Habits,
    Todos,
    Calendar,
    Ideas,
    Pomodoro,
    Stats,
    Subs,
}

/// The screen a panel name opens; unknown names open the stats panel.
pub open spec fn screen_for_spec(panel: Seq<char>) -> Screen {
    if panel == "habits"@ {
        Screen::Habits
    } else if panel == "todos"@ {
        Screen::Todos
    } else if panel == "calendar"@ {
        Screen::Calendar
    } else if panel == "ideas"@ {
        Screen::Ideas
    } else if panel == "pomodoro"@ {
        Screen::Pomodoro
    } else {
        Screen::Stats
    }
}

/// The screen a panel name opens; unknown names open the stats panel.
pub fn screen_for(panel: &str) -> (r: Screen)
    ensures
        r == screen_for_spec(panel@),
{
    if text_eq(panel, "habits") {
        Screen::Habits
    } else if text_eq(panel, "todos") {
        Screen::Todos
    } else if text_eq(panel, "calendar") {
        Screen::Calendar
    } else if text_eq(panel, "ideas") {
        Screen::Ideas
    } else if text_eq(panel, "pomodoro") {
        Screen::Pomodoro
    } else {
        Screen::Stats
    }
}

/// The whole dashboard's state. Home has one focus slot per configured panel and a
/// last one for the subscriptions strip.
#[derive(Debug)]
pub struct App {
    pub config: Config,
    pub theme: Theme,
    pub screen: Screen,
    pub mode: InputMode,
    pub focus: usize,
    pub should_quit: bool,
    pub today: Date,
    pub status: Option<String>,
    pub habits: HabitsState,
    pub todos: TodosState,
    pub calendar: CalendarState,
    pub ideas: IdeasState,
    pub pomodoro: PomodoroState,
    pub stats: StatsState,
    pub subs: SubsState,
}

/// The screen of a Home focus slot.
pub open spec fn slot_screen(panels: Seq<String>, focus: int) -> Screen {
    if focus < panels.len() { screen_for_spec(panels[focus]@) } else { Screen::Subs }
}

/// The module that keys act on: the zoomed screen, or the focused Home panel.
pub open spec fn active_module_spec(app: App) -> Screen {
    if app.screen == Screen::Home { slot_screen(app.config.panels@, app.focus as int) } else { app.screen }
}

/// Everything but module `m`'s state (and, for the pomodoro, its lengths) is kept.
pub open spec fn others_kept(pre: App, post: App, m: Screen) -> bool {
    &&& post.config == Config { pomodoro: post.config.pomodoro, ..pre.config }
    &&& post.theme == pre.theme
    &&& post.screen == pre.screen
    &&& post.focus == pre.focus
    &&& post.should_quit == pre.should_quit
    &&& post.today == pre.today
    &&& m != Screen::Habits ==> post.habits == pre.habits
    &&& m != Screen::Todos ==> post.todos == pre.todos
    &&& m != Screen::Calendar ==> post.calendar == pre.calendar
    &&& m != Screen::Ideas ==> post.ideas == pre.ideas
    &&& m != Screen::Pomodoro ==> post.pomodoro == pre.pomodoro && post.config.pomodoro == pre.config.pomodoro
    &&& m != Screen::Stats ==> post.stats == pre.stats
    &&& m != Screen::Subs ==> post.subs == pre.subs
}

/// A key handed to module `m` (with the status line cleared first).
pub open spec fn dispatched(pre: App, post: App, m: Screen, key: Key, now: i64, r: Command) -> bool {
    &&& others_kept(pre, post, m)
    &&& match m {
        Screen::Home => r == quiet() && post.mode == pre.mode && post.status is None && post.config.pomodoro == pre.config.pomodoro,
        Screen::Habits => habits_key_step(pre.habits, post.habits, pre.mode, post.mode, key, pre.today, r)
            && post.status is None && post.config.pomodoro == pre.config.pomodoro,
        Screen::Todos => todos_key_step(pre.todos, post.todos, pre.mode, post.mode, None, post.status, key, pre.config.pomodoro.focus_min, r)
            && post.config.pomodoro == pre.config.pomodoro,
        Screen::Calendar => calendar_key_step(pre.calendar, post.calendar, pre.mode, post.mode, None, post.status, key, pre.today, r)
            && post.config.pomodoro == pre.config.pomodoro,
        Screen::Ideas => ideas_key_step(pre.ideas, post.ideas, pre.mode, post.mode, key, r) && post.status is None
            && post.config.pomodoro == pre.config.pomodoro,
        Screen::Pomodoro => pomodoro_key_step(pre.pomodoro, post.pomodoro, pre.config.pomodoro, post.config.pomodoro, key, now, r)
            && post.mode == pre.mode && post.status is None,
        Screen::Stats => r == quiet() && post.mode == pre.mode && post.status is None && post.config.pomodoro == pre.config.pomodoro
            && stats_key_step(pre.stats, post.stats, key),
        Screen::Subs => subs_key_step(pre.subs, post.subs, pre.mode, post.mode, key, r) && post.status is None
            && post.config.pomodoro == pre.config.pomodoro,
    }
}

/// The home panel that a digit key jumps to (`1`-`6` by position, `7` for subscriptions).
pub open spec fn digit_target(panels: Seq<String>, c: char) -> Option<Screen> {
    if '1' <= c && c <= '6' {
        let idx = c as int - '1' as int;
        if idx < panels.len() { Some(screen_for_spec(panels[idx]@)) } else { None }
    } else if c == '7' {
        Some(Screen::Subs)
    } else {
        None
    }
}

/// Leaving the habits screen goes back to showing today.
pub open spec fn left_habits(pre: App, post: App) -> bool {
    if pre.screen == Screen::Habits && pre.habits.day is Some {
        post.habits == HabitsState { day: None, ..pre.habits }
    } else {
        post.habits == pre.habits
    }
}

pub open spec fn reload_habits_if(b: bool) -> Command {
    Command { effect: Effect::Nothing, reload: Reload { habits: b, ..no_reload() } }
}

/// `pre` with the status line cleared and the fields named by the caller replaced: the
/// rest of the dashboard is kept.
pub open spec fn only_changed(pre: App, post: App, screen: Screen, focus: usize, habits: HabitsState, should_quit: bool) -> bool {
    post == App { screen, focus, habits, should_quit, status: None, ..pre }
}

/// What a key does to the whole dashboard, and the command it gives.
pub open spec fn app_key_step(pre: App, post: App, key: Key, now: i64, r: Command) -> bool {
    if pre.mode == InputMode::Editing {
        dispatched(pre, post, active_module_spec(pre), key, now, r)
    } else if key == Key::Char('q') {
        only_changed(pre, post, pre.screen, pre.focus, pre.habits, true) && r == quiet()
    } else if key == Key::Esc {
        &&& only_changed(pre, post, Screen::Home, pre.focus, post.habits, pre.should_quit)
        &&& pre.screen == Screen::Home ==> post.habits == HabitsState { day: None, ..pre.habits } && r == reload_habits_if(pre.habits.day is Some)
        &&& pre.screen != Screen::Home ==> left_habits(pre, post)
            && r == reload_habits_if(pre.screen == Screen::Habits && pre.habits.day is Some)
    } else if key matches Key::Char(c) && digit_target(pre.config.panels@, c) is Some {
        let c = key->Char_0;
        &&& only_changed(pre, post, digit_target(pre.config.panels@, c).unwrap(), pre.focus, post.habits, pre.should_quit)
        &&& left_habits(pre, post)
        &&& r == reload_habits_if(pre.screen == Screen::Habits && pre.habits.day is Some)
    } else if key matches Key::Char(c) && '1' <= c && c <= '6' {
        only_changed(pre, post, pre.screen, pre.focus, pre.habits, pre.should_quit) && r == quiet()
    } else if pre.screen == Screen::Home {
        let slots: int = pre.config.panels@.len() as int + 1;
        if key == Key::Tab {
            only_changed(pre, post, pre.screen, post.focus, pre.habits, pre.should_quit)
                && post.focus == (pre.focus + 1) % slots && r == quiet()
        } else if key == Key::BackTab {
            only_changed(pre, post, pre.screen, post.focus, pre.habits, pre.should_quit)
                && post.focus == (if pre.focus == 0 { slots - 1 } else { pre.focus - 1 }) && r == quiet()
        } else if key == Key::Enter {
            only_changed(pre, post, slot_screen(pre.config.panels@, pre.focus as int), pre.focus, pre.habits, pre.should_quit)
                && r == quiet()
        } else {
            dispatched(pre, post, active_module_spec(pre), key, now, r)
        }
    } else {
        dispatched(pre, post, pre.screen, key, now, r)
    }
}

impl App {
    pub open spec fn wf(self) -> bool {
        &&& self.config.panels@.len() > 0
        &&& self.config.panels@.len() < usize::MAX
        &&& self.focus <= self.config.panels@.len()
        &&& self.today.wf()
        &&& self.today.days > MIN_DAYS
        &&& self.habits.wf()
        &&& self.todos.wf()
        &&& self.calendar.wf()
        &&& self.ideas.wf()
        &&& self.subs.wf()
    }

    /// A fresh dashboard on Home for the given settings, status line and day.
    pub fn new(config: Config, status: Option<String>, today: Date) -> (r: App)
        requires
            config.panels@.len() > 0,
            config.panels@.len() < usize::MAX,
            today.wf(),
            today.days > MIN_DAYS,
        ensures
            r.wf(),
            r.config == config,
            r.theme == crate::theme::theme_of(config.theme),
            r.screen == Screen::Home,
            r.mode == InputMode::Normal,
            r.focus == 0,
            !r.should_quit,
            r.today == today,
            r.status == status,
            r.calendar.cursor == today,
            r.calendar.events@.len() == 0 && r.calendar.due@.len() == 0 && r.calendar.form is None,
            r.habits.items@.len() == 0 && r.habits.selected == 0 && r.habits.day is None && r.habits.input is None,
            r.todos.items@.len() == 0 && r.todos.selected == 0 && r.todos.form is None && r.todos.filter is None,
            !r.todos.filter_editing && !r.todos.group_by_project && r.todos.expanded is None,
            r.todos.last_completed is None,
            r.ideas.items@.len() == 0 && r.ideas.selected == 0 && r.ideas.input is None && r.ideas.body_edit is None,
            r.subs.items@.len() == 0 && r.subs.selected == 0 && r.subs.input is None,
            r.pomodoro.active is None && r.pomodoro.today_count == 0 && !r.pomodoro.suggest_break,
            r.stats.range == crate::stats::Range::Week && r.stats.skin == crate::pet::Skin::Comet && r.stats.reaction is None,
    {
        let theme = Theme::from_cfg(&config.theme);
        App {
            config,
            theme,
            screen: Screen::Home,
            mode: InputMode::Normal,
            focus: 0,
            should_quit: false,
            today,
            status,
            habits: HabitsState::new(),
            todos: TodosState::new(),
            calendar: CalendarState::new(today),
            ideas: IdeasState::new(),
            pomodoro: PomodoroState::new(),
            stats: StatsState::new(),
            subs: SubsState::new(),
        }
    }

    /// The module that keys act on: the zoomed screen, or the focused Home panel.
    pub fn active_module(&self) -> (r: Screen)
        requires
            self.focus <= self.config.panels@.len(),
        ensures
            r == active_module_spec(*self),
    {
        if self.screen == Screen::Home {
            if self.focus < self.config.panels.len() {
                screen_for(self.config.panels[self.focus].as_str())
            } else {
                Screen::Subs
            }
        } else {
            self.screen
        }
    }

    fn dispatch_module(&mut self, module: Screen, key: Key, now: i64) -> (r: Command)
        requires
            old(self).wf(),
            old(self).status is None,
            old(self).pomodoro.active matches Some(a) ==> resumable_at(a, now as int),
        ensures
            final(self).wf(),
            dispatched(*old(self), *final(self), module, key, now, r),
    {
        match module {
            Screen::Habits => crate::habits::handle_key(&mut self.habits, &mut self.mode, key, self.today),
            Screen::Todos => {
                let focus_min = self.config.pomodoro.focus_min;
                crate::todos::handle_key(&mut self.todos, &mut self.mode, &mut self.status, key, focus_min)
            },
            Screen::Calendar => crate::calendar::handle_key(&mut self.calendar, &mut self.mode, &mut self.status, key, self.today),
            Screen::Ideas => crate::ideas::handle_key(&mut self.ideas, &mut self.mode, key),
            Screen::Pomodoro => crate::pomodoro::handle_key(&mut self.pomodoro, &mut self.config.pomodoro, key, now),
            Screen::Stats => {
                crate::stats::handle_key(&mut self.stats, key);
                nothing()
            },
            Screen::Subs => crate::subs::handle_key(&mut self.subs, &mut self.mode, key),
            Screen::Home => nothing(),
        }
    }

    fn reset_habits_day_if_leaving(&mut self) -> (r: bool)
        ensures
            left_habits(*old(self), *final(self)),
            r == (old(self).screen == Screen::Habits && old(self).habits.day is Some),
            final(self).habits.wf() == old(self).habits.wf(),
            *final(self) == (App { habits: final(self).habits, ..*old(self) }),
    {
        if self.screen == Screen::Habits && self.habits.day.is_some() {
            self.habits.day = None;
            true
        } else {
            false
        }
    }

    /// Handles a key press at `now` (milliseconds since the epoch).
    pub fn handle_key(&mut self, key: Key, now: i64) -> (r: Command)
        requires
            old(self).wf(),
            old(self).pomodoro.active matches Some(a) ==> resumable_at(a, now as int),
        ensures
            final(self).wf(),
            app_key_step(*old(self), *final(self), key, now, r),
    {
        self.status = None;
        if self.mode == InputMode::Editing {
            let module = self.active_module();
            return self.dispatch_module(module, key, now);
        }
        if key == Key::Char('q') {
            self.should_quit = true;
            return nothing();
        }
        if key == Key::Esc {
            if self.screen == Screen::Home {
                let had = self.habits.day.is_some();
                self.habits.day = None;
                return Command { effect: Effect::Nothing, reload: Reload { habits: had, ..reload_none() } };
            } else {
                let had = self.reset_habits_day_if_leaving();
                self.screen = Screen::Home;
                return Command { effect: Effect::Nothing, reload: Reload { habits: had, ..reload_none() } };
            }
        }
        if let Key::Char(c) = key {
            if '1' <= c && c <= '7' {
                let target = if c == '7' {
                    Some(Screen::Subs)
                } else {
                    let idx = (c as u32 - '1' as u32) as usize;
                    if idx < self.config.panels.len() {
                        Some(screen_for(self.config.panels[idx].as_str()))
                    } else {
                        None
                    }
                };
                if let Some(s) = target {
                    let had = self.reset_habits_day_if_leaving();
                    self.screen = s;
                    return Command { effect: Effect::Nothing, reload: Reload { habits: had, ..reload_none() } };
                }
                return nothing();
            }
        }
        if self.screen == Screen::Home {
            let slots = self.config.panels.len() + 1;
            if key == Key::Tab {
                self.focus = (self.focus + 1) % slots;
                nothing()
            } else if key == Key::BackTab {
                self.focus = if self.focus == 0 { slots - 1 } else { self.focus - 1 };
                nothing()
            } else if key == Key::Enter {
                self.screen = self.active_module();
                nothing()
            } else {
                let module = self.active_module();
                self.dispatch_module(module, key, now)
            }
        } else {
            let module = self.screen;
            self.dispatch_module(module, key, now)
        }
    }

    /// After a reorder request was stored: `moved` tells whether the habit moved.
    pub fn habit_moved(&mut self, down: bool, moved: bool)
        requires
            old(self).wf(),
        ensures
            final(self).wf(),
            final(self).habits.selected == (if moved && old(self).habits.items@.len() > 0 {
                if down {
                    crate::command::sel_down(old(self).habits.selected as int, old(self).habits.items@.len() as int)
                } else {
                    crate::command::sel_up(old(self).habits.selected as int)
                }
            } else {
                old(self).habits.selected as int
            }),
            *final(self) == (App { habits: final(self).habits, ..*old(self) }),
    {
        self.habits.moved(down, moved);
    }

    /// After a completion was stored (see `TodosState::completed`).
    pub fn todo_completed(&mut self, id: i64, spawned: Option<i64>, recurring: bool, parent_open: Option<i64>)
        requires
            old(self).wf(),
        ensures
            final(self).wf(),
            final(self).todos.last_completed == Some((id, spawned)),
            parent_open == Some(0i64) ==> crate::todos::says(final(self).status, "all subtasks done — space on parent to close it"@),
            parent_open != Some(0i64) && recurring ==> crate::todos::says(final(self).status, "↻ next occurrence scheduled"@),
            parent_open != Some(0i64) && !recurring ==> final(self).status == old(self).status,
    {
        self.todos.completed(&mut self.status, id, spawned, recurring, parent_open);
    }

    /// After a todo could not be stored: the status line shows why.
    pub fn save_failed(&mut self, err: &str)
        ensures
            crate::todos::says(final(self).status, "save failed: "@ + err@),
            *final(self) == (App { status: final(self).status, ..*old(self) }),
    {
        self.status = Some(concat("save failed: ", err));
    }

    /// After a session was stored under `db_id`: it starts running at `now`.
    pub fn session_started(&mut self, db_id: i64, kind: Kind, minutes: u64, todo_title: Option<String>, now: i64)
        requires
            old(self).wf(),
            minutes * MINUTE_MS <= i64::MAX,
        ensures
            final(self).wf(),
            final(self).pomodoro.active == Some(crate::pomodoro::ActiveSession {
                db_id,
                kind,
                todo_title,
                started_at: now,
                duration: (minutes * MINUTE_MS) as i64,
                paused_at: None,
            }),
            !final(self).pomodoro.suggest_break,
    {
        self.pomodoro.begin(db_id, kind, minutes, todo_title, now);
    }

    /// The session that ran out at `now`, if any.
    pub fn session_due(&self, now: i64) -> (r: Option<(i64, Kind)>)
        requires
            self.pomodoro.active matches Some(a) ==> fits_i64(clock_at(a, now as int) - a.started_at) && fits_i64(remaining_at(a, now as int)),
        ensures
            match self.pomodoro.active {
                None => r is None,
                Some(a) => if remaining_at(a, now as int) > 0 { r is None } else { r == Some((a.db_id, a.kind)) },
            },
    {
        crate::pomodoro::due_to_finish(&self.pomodoro, now)
    }

    /// After a session that ran out was stored as completed.
    pub fn session_finished(&mut self, kind: Kind, today_count: Option<u32>)
        requires
            old(self).wf(),
        ensures
            final(self).wf(),
            final(self).pomodoro.active is None,
            kind == Kind::Focus ==> final(self).pomodoro.suggest_break
                && final(self).pomodoro.today_count == (match today_count { Some(c) => c, None => 0 })
                && crate::todos::says(final(self).status, "focus done — s starts a 5m break"@),
            kind == Kind::Break ==> crate::todos::says(final(self).status, "break over — s starts focus"@)
                && final(self).pomodoro.today_count == old(self).pomodoro.today_count,
    {
        crate::pomodoro::finished(&mut self.pomodoro, &mut self.status, kind, today_count);
    }

    /// A new day began when the date `now` differs from `today`: the day moves on and
    /// the habits show today again. Tells whether the day changed.
    pub fn new_day(&mut self, now: Date) -> (r: bool)
        requires
            old(self).wf(),
            now.wf(),
            now.days > MIN_DAYS,
        ensures
            final(self).wf(),
            r == (now != old(self).today),
            r ==> final(self).today == now && final(self).habits.day is None,
            !r ==> *final(self) == *old(self),
    {
        if now.days != self.today.days {
            self.today = now;
            self.habits.day = None;
            true
        } else {
            false
        }
    }
}

/// On Home, Tab then Shift+Tab leave the focus where it was.
pub proof fn lemma_tab_then_backtab(a0: App, a1: App, a2: App, now: i64, r1: Command, r2: Command)
    requires
        a0.wf(),
        a0.screen == Screen::Home,
        a0.mode == InputMode::Normal,
        app_key_step(a0, a1, Key::Tab, now, r1),
        app_key_step(a1, a2, Key::BackTab, now, r2),
    ensures
        a2.focus == a0.focus,
        a2.screen == Screen::Home,
{
    let slots: int = a0.config.panels@.len() as int + 1;
    assert(a1.config.panels == a0.config.panels && a1.mode == a0.mode && a1.screen == Screen::Home);
    if a0.focus + 1 == slots {
        assert(a1.focus == 0) by (nonlinear_arith)
            requires a1.focus == (a0.focus + 1) % slots, a0.focus + 1 == slots, slots > 0;
    } else {
        assert(a1.focus == a0.focus + 1) by (nonlinear_arith)
            requires a1.focus == (a0.focus + 1) % slots, 0 <= a0.focus + 1 < slots;
    }
}

/// Each panel name opens its own screen, and only the five module names do: any other
/// name opens the stats screen.
pub proof fn lemma_panel_names_open_their_screens(p: Seq<char>)
    ensures
        screen_for_spec(p) == Screen::Habits <==> p == "habits"@,
        screen_for_spec(p) == Screen::Todos <==> p == "todos"@,
        screen_for_spec(p) == Screen::Calendar <==> p == "calendar"@,
        screen_for_spec(p) == Screen::Ideas <==> p == "ideas"@,
        screen_for_spec(p) == Screen::Pomodoro <==> p == "pomodoro"@,
        screen_for_spec(p) == Screen::Stats <==> (p != "habits"@ && p != "todos"@ && p != "calendar"@
            && p != "ideas"@ && p != "pomodoro"@),
        screen_for_spec(p) != Screen::Home && screen_for_spec(p) != Screen::Subs,
{
    reveal_strlit("habits");
    reveal_strlit("todos");
    reveal_strlit("calendar");
    reveal_strlit("ideas");
    reveal_strlit("pomodoro");
    assert("habits"@[0] == 'h' && "todos"@[0] == 't' && "calendar"@[0] == 'c');
    assert("ideas"@[0] == 'i' && "pomodoro"@[0] == 'p');
    assert("todos"@ != "habits"@);
    assert("calendar"@ != "habits"@ && "calendar"@ != "todos"@);
    assert("ideas"@ != "habits"@ && "ideas"@ != "todos"@ && "ideas"@ != "calendar"@);
    assert("pomodoro"@ != "habits"@ && "pomodoro"@ != "todos"@ && "pomodoro"@ != "calendar"@ && "pomodoro"@ != "ideas"@);
}

} // verus!
