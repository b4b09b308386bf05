use crate::date::Date;
use crate::pomodoro::Kind;
use vstd::prelude::*;

verus! {

/// A key press, as the library sees it.
#[derive(Clone, Copy, Debug, PartialEq, Eq, Structural)]
pub enum Key {
    Char(char),
    Enter,
    Esc,
    Backspace,
    Tab,
    BackTab,
    Up,
    Down,
    Left,
    Right,
    Other,
}

/// Whether keys go to a text field (Editing) or act as commands (Normal).
#[derive(Clone, Copy, Debug, PartialEq, Eq, Structural)]
pub enum InputMode {
    Normal,
    Editing,
}

/// A new or edited todo, as it is stored.
#[derive(Clone, Debug, PartialEq, Eq)]
pub struct NewTodo {
    pub title: String,
    pub notes: String,
    pub priority: u8,
    pub due_date: Option<Date>,
    pub project: Option<String>,
    pub tags: String,
    pub parent_id: Option<i64>,
    pub recur_rule: Option<String>,
}

/// The change to stored data that a key asks for.
#[derive(Clone, Debug, PartialEq, Eq)]
pub enum Effect {
    Nothing,
    HabitAdd { name: String },
    HabitToggle { id: i64, day: Date },
    HabitArchive { id: i64 },
    HabitMove { id: i64, delta: i64 },
    TodoComplete { id: i64, recurring: bool, parent: Option<i64> },
    TodoUncomplete { id: i64, spawned: Option<i64> },
    TodoDelete { id: i64 },
    TodoSave { todo: NewTodo, editing_id: Option<i64> },
    EventAdd { title: String, date: Date, time: Option<String>, category: String },
    EventDelete { id: i64 },
    IdeaAdd { title: String },
    IdeaSetBody { id: i64, body: String },
    IdeaSetStatus { id: i64, status: String },
    IdeaDelete { id: i64 },
    PomoStart { kind: Kind, minutes: u64, todo_id: Option<i64>, todo_title: Option<String> },
    PomoFinish { db_id: i64, completed: bool },
    SubAdd { text: String, is_sub: bool },
    SubDelete { id: i64 },
}

/// Which modules to read again from storage once the effect is done.
#[derive(Clone, Copy, Debug, PartialEq, Eq, Structural)]
pub struct Reload {
    pub habits: bool,
    pub todos: bool,
    pub calendar: bool,
    pub ideas: bool,
    pub subs: bool,
}

/// What the caller does after a key: perform the effect, then reload.
#[derive(Clone, Debug, PartialEq, Eq)]
pub struct Command {
    pub effect: Effect,
    pub reload: Reload,
}

pub open spec fn no_reload() -> Reload {
    Reload { habits: false, todos: false, calendar: false, ideas: false, subs: false }
}

pub open spec fn quiet() -> Command {
    Command { effect: Effect::Nothing, reload: no_reload() }
}

pub fn reload_none() -> (r: Reload)
    ensures
        r == no_reload(),
{
    Reload { habits: false, todos: false, calendar: false, ideas: false, subs: false }
}

pub fn nothing() -> (r: Command)
    ensures
        r == quiet(),
{
    Command { effect: Effect::Nothing, reload: reload_none() }
}

/// Keys that move the selection up: the arrow or `k`.
pub open spec fn is_up(key: Key) -> bool {
    key == Key::Up || key == Key::Char('k')
}

/// Keys that move the selection down: the arrow or `j`.
pub open spec fn is_down(key: Key) -> bool {
    key == Key::Down || key == Key::Char('j')
}

pub fn key_is_up(key: Key) -> (r: bool)
    ensures
        r == is_up(key),
{
    match key {
        Key::Up => true,
        Key::Char(c) => c == 'k',
        _ => false,
    }
}

pub fn key_is_down(key: Key) -> (r: bool)
    ensures
        r == is_down(key),
{
    match key {
        Key::Down => true,
        Key::Char(c) => c == 'j',
        _ => false,
    }
}

/// Selection after moving up one row.
pub open spec fn sel_up(s: int) -> int {
    if s == 0 { 0 } else { s - 1 }
}

/// Selection after moving down one row in a list of `n > 0` rows.
pub open spec fn sel_down(s: int, n: int) -> int {
    if s + 1 < n - 1 { s + 1 } else { n - 1 }
}

pub fn step_up(s: usize) -> (r: usize)
    ensures
        r == sel_up(s as int),
{
    if s == 0 { 0 } else { s - 1 }
}

pub fn step_down(s: usize, n: usize) -> (r: usize)
    requires
        n > 0,
        s < n,
    ensures
        r == sel_down(s as int, n as int),
{
    if s + 1 < n - 1 { s + 1 } else { n - 1 }
}

/// A selection clamped into a list of `n` rows (kept as is for an empty list).
pub open spec fn clamp_sel(s: int, n: int) -> int {
    if s >= n && n > 0 { n - 1 } else { s }
}

pub fn clamp_selection(s: usize, n: usize) -> (r: usize)
    ensures
        r == clamp_sel(s as int, n as int),
        n > 0 ==> r < n,
{
    if s >= n && n > 0 { n - 1 } else { s }
}

/// Characters typed into a text field: Backspace removes the last, a character is
/// appended; other keys leave the text alone.
pub open spec fn edited(text: Seq<char>, key: Key) -> Seq<char> {
    match key {
        Key::Backspace => if text.len() > 0 { text.drop_last() } else { text },
        Key::Char(c) => text.push(c),
        _ => text,
    }
}

pub fn edit_text(s: &mut String, key: Key)
    ensures
        final(s)@ == edited(old(s)@, key),
{
    match key {
        Key::Backspace => {
            let _ = crate::text::pop_char(s);
        },
        Key::Char(c) => crate::text::push_char(s, c),
        _ => {},
    }
}

} // verus!
