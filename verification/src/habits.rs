use crate::command::{is_down, is_up, key_is_down, key_is_up, clamp_sel, clamp_selection, edit_text, edited, no_reload, nothing, quiet, reload_none, sel_down, sel_up, step_down, step_up, Command, Effect, InputMode, Key, Reload};
use crate::date::{Date, MIN_DAYS};
use crate::text::trimmed;
use vstd::prelude::*;

verus! {

/// A habit as stored.
#[derive(Clone, Debug, PartialEq, Eq)]
pub struct Habit {
    pub id: i64,
    pub name: String,
    pub position: i64,
    pub archived: bool,
}

/// The habits module's state.
#[derive(Debug)]
pub struct HabitsState {
    pub items: Vec<Habit>,
    /// Ids of the habits checked on the day shown.
    pub checked: Vec<i64>,
    /// Current streak of each habit, in the order of `items`.
    pub streaks: Vec<u32>,
    pub selected: usize,
    /// The day shown: none for today, or yesterday.
    pub day: Option<Date>,
    /// The name being typed for a new habit.
    pub input: Option<String>,
}

impl HabitsState {
    /// The selection points at a habit whenever there is one.
    pub open spec fn wf(self) -> bool {
        self.items@.len() > 0 ==> self.selected < self.items@.len()
    }

    pub fn new() -> (r: HabitsState)
        ensures
            r.wf(),
            r.items@.len() == 0,
            r.checked@.len() == 0,
            r.streaks@.len() == 0,
            r.selected == 0,
            r.day is None,
            r.input is None,
    {
        HabitsState { items: Vec::new(), checked: Vec::new(), streaks: Vec::new(), selected: 0, day: None, input: None }
    }

    /// The day whose checks are shown.
    pub fn shown_day(&self, today: Date) -> (r: Date)
        ensures
            r == (match self.day { Some(d) => d, None => today }),
    {
        match self.day {
            Some(d) => d,
            None => today,
        }
    }

    /// Takes what storage holds: the active habits, those checked on the shown day and
    /// their streaks; the selection is kept in the list.
    pub fn load(&mut self, items: Vec<Habit>, checked: Vec<i64>, streaks: Vec<u32>)
        ensures
            final(self).items@ == items@,
            final(self).checked@ == checked@,
            final(self).streaks@ == streaks@,
            final(self).selected == clamp_sel(old(self).selected as int, items@.len() as int),
            final(self).day == old(self).day,
            final(self).input == old(self).input,
            final(self).wf(),
    {
        let n = items.len();
        self.items = items;
        self.checked = checked;
        self.streaks = streaks;
        self.selected = clamp_selection(self.selected, n);
    }

    /// After a reorder request: the selection follows the habit when it moved.
    pub fn moved(&mut self, down: bool, moved: bool)
        requires
            old(self).wf(),
        ensures
            final(self).wf(),
            final(self).items == old(self).items,
            final(self).day == old(self).day,
            final(self).input == old(self).input,
            !moved || old(self).items@.len() == 0 ==> final(self).selected == old(self).selected,
            moved && old(self).items@.len() > 0 && !down ==> final(self).selected == sel_up(old(self).selected as int),
            moved && old(self).items@.len() > 0 && down ==> final(self).selected == sel_down(old(self).selected as int, old(self).items@.len() as int),
    {
        let n = self.items.len();
        if moved && n > 0 {
            if down {
                self.selected = step_down(self.selected, n);
            } else {
                self.selected = step_up(self.selected);
            }
        }
    }
}

/// What a key does in the habits module: the state and input mode after it, and the
/// command it gives.
pub open spec fn habits_key_step(pre: HabitsState, post: HabitsState, pre_mode: InputMode, post_mode: InputMode, key: Key, today: Date, r: Command) -> bool {
    &&& post.items == pre.items
    &&& post.checked == pre.checked
    &&& post.streaks == pre.streaks
    &&& pre.input matches Some(buf) ==> (match key {
        Key::Enter => ({
            &&& post.input is None
            &&& post_mode == InputMode::Normal
            &&& r.reload == Reload { habits: true, ..no_reload() }
            &&& trimmed(buf@).len() > 0 ==> (r.effect matches Effect::HabitAdd { name } && name@ == trimmed(buf@))
            &&& trimmed(buf@).len() == 0 ==> r.effect == Effect::Nothing
            &&& post.selected == pre.selected && post.day == pre.day
        }),
        Key::Esc => ({
            &&& post.input is None
            &&& post_mode == InputMode::Normal
            &&& r == quiet()
            &&& post.selected == pre.selected && post.day == pre.day
        }),
        _ => ({
            &&& post.input matches Some(b) && b@ == edited(buf@, key)
            &&& post_mode == pre_mode
            &&& r == quiet()
            &&& post.selected == pre.selected && post.day == pre.day
        }),
    })
    &&& pre.input is None ==> {
        let n = pre.items@.len();
        let sel = pre.selected as int;
        let kept = post.selected == sel && post.day == pre.day;
        &&& key != Key::Char('a') ==> post.input is None && post_mode == pre_mode
        &&& if is_up(key) && n > 0 {
            post.selected == sel_up(sel) && r == quiet() && post.day == pre.day
        } else if is_down(key) && n > 0 {
            post.selected == sel_down(sel, n as int) && r == quiet() && post.day == pre.day
        } else if key == Key::Char(' ') && n > 0 {
            &&& r.effect == Effect::HabitToggle {
                id: pre.items@[sel].id,
                day: match pre.day { Some(d) => d, None => today },
            }
            &&& r.reload == Reload { habits: true, ..no_reload() }
            &&& kept
        } else if key == Key::Char('a') {
            &&& post.input matches Some(b) && b@.len() == 0
            &&& post_mode == InputMode::Editing
            &&& r == quiet()
            &&& kept
        } else if key == Key::Char('d') && n > 0 {
            &&& r.effect == Effect::HabitArchive { id: pre.items@[sel].id }
            &&& r.reload == Reload { habits: true, ..no_reload() }
            &&& kept
        } else if key == Key::Char('K') && n > 0 {
            &&& r.effect == Effect::HabitMove { id: pre.items@[sel].id, delta: -1i64 }
            &&& r.reload == no_reload()
            &&& kept
        } else if key == Key::Char('J') && n > 0 {
            &&& r.effect == Effect::HabitMove { id: pre.items@[sel].id, delta: 1i64 }
            &&& r.reload == no_reload()
            &&& kept
        } else if key == Key::Char('y') {
            &&& pre.day is None ==> (post.day matches Some(d) && d.days == today.days - 1)
            &&& pre.day is Some ==> post.day is None
            &&& r.reload == Reload { habits: true, ..no_reload() }
            &&& r.effect == Effect::Nothing
            &&& post.selected == sel
        } else {
            r == quiet() && kept
        }
    }
}

/// Handles a key for the habits module.
pub fn handle_key(st: &mut HabitsState, mode: &mut InputMode, key: Key, today: Date) -> (r: Command)
    requires
        old(st).wf(),
        today.wf(),
        old(st).input is None && old(st).day is None && key == Key::Char('y') ==> today.days > MIN_DAYS,
    ensures
        final(st).wf(),
        habits_key_step(*old(st), *final(st), *old(mode), *final(mode), key, today, r),
{
    if st.input.is_some() {
        let mut buf = st.input.take().unwrap();
        match key {
            Key::Enter => {
                let name = crate::text::trim(buf.as_str());
                let effect = if !name.is_empty() {
                    Effect::HabitAdd { name: name.to_owned() }
                } else {
                    Effect::Nothing
                };
                *mode = InputMode::Normal;
                return Command { effect, reload: Reload { habits: true, ..reload_none() } };
            },
            Key::Esc => {
                *mode = InputMode::Normal;
                return nothing();
            },
            _ => {
                edit_text(&mut buf, key);
                st.input = Some(buf);
                return nothing();
            },
        }
    }
    let n = st.items.len();
    if key_is_up(key) && n > 0 {
        st.selected = step_up(st.selected);
        nothing()
    } else if key_is_down(key) && n > 0 {
        st.selected = step_down(st.selected, n);
        nothing()
    } else if key == Key::Char(' ') && n > 0 {
        let id = st.items[st.selected].id;
        let day = st.shown_day(today);
        Command { effect: Effect::HabitToggle { id, day }, reload: Reload { habits: true, ..reload_none() } }
    } else if key == Key::Char('a') {
        st.input = Some(String::new());
        *mode = InputMode::Editing;
        nothing()
    } else if key == Key::Char('d') && n > 0 {
        let id = st.items[st.selected].id;
        Command { effect: Effect::HabitArchive { id }, reload: Reload { habits: true, ..reload_none() } }
    } else if key == Key::Char('K') && n > 0 {
        let id = st.items[st.selected].id;
        Command { effect: Effect::HabitMove { id, delta: -1 }, reload: reload_none() }
    } else if key == Key::Char('J') && n > 0 {
        let id = st.items[st.selected].id;
        Command { effect: Effect::HabitMove { id, delta: 1 }, reload: reload_none() }
    } else if key == Key::Char('y') {
        st.day = match st.day {
            None => today.pred(),
            Some(_) => None,
        };
        Command { effect: Effect::Nothing, reload: Reload { habits: true, ..reload_none() } }
    } else {
        nothing()
    }
}

/// The habit was checked on the day numbered `d`.
pub open spec fn checked_on(days: Seq<Date>, d: int) -> bool {
    exists|i: int| 0 <= i < days.len() && (#[trigger] days[i]).days == d
}

fn has_day(days: &Vec<Date>, d: i64) -> (r: bool)
    ensures
        r == checked_on(days@, d as int),
{
    let mut i: usize = 0;
    while i < days.len()
        invariant
            i <= days@.len(),
            forall|j: int| 0 <= j < i ==> (#[trigger] days@[j]).days != d,
        decreases days.len() - i,
    {
        if days[i].days as i64 == d {
            return true;
        }
        i = i + 1;
    }
    false
}

/// The first day a streak counts back from: today once it is checked, else yesterday.
pub open spec fn streak_start(days: Seq<Date>, today: int) -> int {
    if checked_on(days, today) { today } else { today - 1 }
}

/// The current streak of a habit checked on `days` (each day listed once): how many
/// days in a row, counting back from today (or from yesterday while today is
/// unchecked), it was checked.
pub fn current_streak(days: &Vec<Date>, today: Date) -> (r: u32)
    ensures
        r <= days@.len(),
        forall|d: int| streak_start(days@, today.days as int) - r < d <= streak_start(days@, today.days as int) ==> #[trigger] checked_on(days@, d),
        r < days@.len() && r < u32::MAX ==> !checked_on(days@, streak_start(days@, today.days as int) - r),
{
    let start: i64 = if has_day(days, today.days as i64) { today.days as i64 } else { today.days as i64 - 1 };
    let mut k: u32 = 0;
    while (k as usize) < days.len() && k < u32::MAX && has_day(days, start - k as i64)
        invariant
            k <= days@.len(),
            start == streak_start(days@, today.days as int),
            forall|d: int| start - k < d <= start ==> #[trigger] checked_on(days@, d),
        decreases days@.len() - k,
    {
        k = k + 1;
    }
    k
}

/// `y` twice comes back to today: the first shows yesterday, the second today again.
pub proof fn lemma_yesterday_twice_is_today(
    s0: HabitsState,
    s1: HabitsState,
    s2: HabitsState,
    m0: InputMode,
    m1: InputMode,
    m2: InputMode,
    today: Date,
    r1: Command,
    r2: Command,
)
    requires
        s0.input is None,
        s0.day is None,
        habits_key_step(s0, s1, m0, m1, Key::Char('y'), today, r1),
        habits_key_step(s1, s2, m1, m2, Key::Char('y'), today, r2),
    ensures
        s1.day matches Some(d) && d.days == today.days - 1,
        s2.day is None,
        s2.selected == s0.selected,
        s2.items == s0.items,
{
}

/// `K` moves the selected habit up and `J` moves it down: they ask for moves of the same
/// habit in opposite directions, one place each.
pub proof fn lemma_reorder_keys_are_opposite(
    s0: HabitsState,
    sk: HabitsState,
    sj: HabitsState,
    m0: InputMode,
    mk: InputMode,
    mj: InputMode,
    today: Date,
    rk: Command,
    rj: Command,
)
    requires
        s0.input is None,
        s0.items@.len() > 0,
        s0.wf(),
        habits_key_step(s0, sk, m0, mk, Key::Char('K'), today, rk),
        habits_key_step(s0, sj, m0, mj, Key::Char('J'), today, rj),
    ensures
        rk.effect matches Effect::HabitMove { id: a, delta: da } && rj.effect matches Effect::HabitMove { id: b, delta: db }
            && a == b && a == s0.items@[s0.selected as int].id && da == -1 && db == 1 && da + db == 0,
{
}

} // verus!
