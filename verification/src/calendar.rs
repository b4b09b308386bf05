use crate::command::{edit_text, edited, no_reload, nothing, quiet, reload_none, Command, Effect, InputMode, Key, Reload};
use crate::date::{chrono_from_ymd, chrono_ymd, in_range, weekday_index, Date};
use crate::text::{text_eq, trim, trimmed};
use crate::theme::{Rgb, Theme};
use crate::todos::{says, Todo};
use vstd::prelude::*;

verus! {

/// A calendar event as stored.
#[derive(Clone, Debug, PartialEq, Eq)]
pub struct Event {
    pub id: i64,
    pub title: String,
    pub date: Date,
    pub time: Option<String>,
    pub category: String,
    pub color: String,
    pub notes: String,
}

/// The form for a new event: title, time (HH:MM, optional), category.
#[derive(Debug)]
pub struct EventForm {
    pub fields: Vec<String>,
    pub focus: usize,
}

/// The calendar module's state.
#[derive(Debug)]
pub struct CalendarState {
    pub cursor: Date,
    pub events: Vec<Event>,
    pub due: Vec<Todo>,
    pub form: Option<EventForm>,
}

/// Whether chrono reads `s` as a time of day `%H:%M`.
pub uninterp spec fn chrono_time_hm_ok(s: Seq<char>) -> bool;

/// `chrono::NaiveTime::parse_from_str(s, "%H:%M")` succeeds. The contract names the result.
#[verifier::external_body]
fn time_hm_ok(s: &str) -> (r: bool)
    ensures
        r == chrono_time_hm_ok(s@),
{
    chrono::NaiveTime::parse_from_str(s, "%H:%M").is_ok()
}

pub open spec fn form_texts(f: EventForm) -> Seq<Seq<char>> {
    f.fields@.map_values(|s: String| s@)
}

/// The color of an event category.
pub fn category_color(t: &Theme, category: &str) -> (r: Rgb)
    ensures
        category@ == "work"@ ==> r == t.blue,
        category@ != "work"@ && category@ == "personal"@ ==> r == t.green,
        category@ != "work"@ && category@ != "personal"@ && category@ == "health"@ ==> r == t.peach,
        category@ != "work"@ && category@ != "personal"@ && category@ != "health"@ && category@ == "deadline"@ ==> r == t.red,
        category@ != "work"@ && category@ != "personal"@ && category@ != "health"@ && category@ != "deadline"@ ==> r == t.accent,
{
    if text_eq(category, "work") {
        t.blue
    } else if text_eq(category, "personal") {
        t.green
    } else if text_eq(category, "health") {
        t.peach
    } else if text_eq(category, "deadline") {
        t.red
    } else {
        t.accent
    }
}

/// Day number of the first of the month after the one of `days`, where chrono has it.
pub open spec fn next_month_first(days: int) -> Option<int> {
    let (y, m, _) = chrono_ymd(days);
    if m == 12 { chrono_from_ymd(y + 1, 1, 1) } else { chrono_from_ymd(y, m + 1, 1) }
}

/// Day number of the first of the month of `days`.
pub open spec fn month_first(days: int) -> int {
    let (y, m, _) = chrono_ymd(days);
    chrono_from_ymd(y, m, 1).unwrap()
}

/// Where a navigation key moves the cursor `c` (`today` for `t`): a day, or none where
/// the month after has no first day in chrono's range; none for other keys.
pub open spec fn move_target(key: Key, c: int, today: int) -> Option<Option<int>> {
    if key == Key::Left || key == Key::Char('h') {
        Some(Some(c - 1))
    } else if key == Key::Right || key == Key::Char('l') {
        Some(Some(c + 1))
    } else if key == Key::Up || key == Key::Char('k') {
        Some(Some(c - 7))
    } else if key == Key::Down || key == Key::Char('j') {
        Some(Some(c + 7))
    } else if key == Key::Char('[') {
        Some(Some(month_first(c) - 1))
    } else if key == Key::Char(']') {
        Some(next_month_first(c))
    } else if key == Key::Char('t') {
        Some(Some(today))
    } else {
        None
    }
}

/// A move target that is a day chrono represents.
pub open spec fn reachable(t: Option<int>) -> bool {
    t matches Some(d) && in_range(d)
}

/// Index of the first event on day `d`.
pub open spec fn first_on(events: Seq<Event>, d: Date) -> Option<int> {
    if exists|i: int| 0 <= i < events.len() && (#[trigger] events[i]).date == d {
        let i = choose|i: int|
            0 <= i < events.len() && (#[trigger] events[i]).date == d && forall|j: int| 0 <= j < i ==> (#[trigger] events[j]).date != d;
        Some(i)
    } else {
        None
    }
}

fn first_event_on(events: &Vec<Event>, d: Date) -> (r: Option<usize>)
    ensures
        match r {
            Some(i) => i < events@.len() && events@[i as int].date == d && forall|j: int| 0 <= j < i ==> (#[trigger] events@[j]).date != d,
            None => forall|j: int| 0 <= j < events@.len() ==> (#[trigger] events@[j]).date != d,
        },
{
    let mut i: usize = 0;
    while i < events.len()
        invariant
            i <= events.len(),
            forall|j: int| 0 <= j < i ==> (#[trigger] events@[j]).date != d,
        decreases events.len() - i,
    {
        if events[i].date.days == d.days {
            return Some(i);
        }
        i = i + 1;
    }
    None
}

/// Positions of the items whose day is `d`, in order.
pub open spec fn positions_on(n: nat, on: spec_fn(int) -> bool) -> Seq<usize> {
    Seq::new(n, |i: int| i as usize).filter(|i: usize| on(i as int))
}

impl CalendarState {
    pub open spec fn wf(self) -> bool {
        &&& self.cursor.wf()
        &&& self.form matches Some(f) ==> f.fields@.len() == 3 && f.focus < 3
    }

    pub fn new(today: Date) -> (r: CalendarState)
        requires
            today.wf(),
        ensures
            r.wf(),
            r.cursor == today,
            r.events@.len() == 0,
            r.due@.len() == 0,
            r.form is None,
    {
        CalendarState { cursor: today, events: Vec::new(), due: Vec::new(), form: None }
    }

    /// The days whose events and due todos are kept: from the first of the cursor's
    /// month to a week after its last day; none at the end of chrono's range.
    pub fn load_range(&self) -> (r: Option<(Date, Date)>)
        requires
            self.wf(),
        ensures
            match r {
                Some((a, b)) => a.days == month_first(self.cursor.days as int)
                    && next_month_first(self.cursor.days as int) == Some(b.days - 6) && a.wf() && b.wf(),
                None => next_month_first(self.cursor.days as int) is None || !in_range(next_month_first(self.cursor.days as int).unwrap() + 6),
            },
    {
        let start = self.cursor.month_start();
        match self.cursor.next_month_start() {
            Some(next) => match next.add_days(6) {
                Some(end) => Some((start, end)),
                None => None,
            },
            None => None,
        }
    }

    /// Takes the events and due todos of the loaded range.
    pub fn load(&mut self, events: Vec<Event>, due: Vec<Todo>)
        ensures
            final(self).events@ == events@,
            final(self).due@ == due@,
            final(self).cursor == old(self).cursor,
            final(self).form == old(self).form,
    {
        self.events = events;
        self.due = due;
    }

    /// Positions of the events on day `d`.
    pub fn events_on(&self, d: Date) -> (r: Vec<usize>)
        ensures
            r@ == positions_on(self.events@.len(), |i: int| self.events@[i].date == d),
    {
        let ghost on = |i: int| self.events@[i].date == d;
        let ghost all = Seq::new(self.events@.len(), |i: int| i as usize);
        let mut r: Vec<usize> = Vec::new();
        let mut i: usize = 0;
        proof {
            reveal(Seq::filter);
            assert(all.take(0) =~= Seq::<usize>::empty());
        }
        while i < self.events.len()
            invariant
                i <= self.events@.len(),
                all == Seq::new(self.events@.len(), |i: int| i as usize),
                r@ == all.take(i as int).filter(|j: usize| on(j as int)),
                on == (|i: int| self.events@[i].date == d),
            decreases self.events.len() - i,
        {
            proof {
                reveal(Seq::filter);
                assert(all.take(i + 1).drop_last() =~= all.take(i as int));
                assert(all.take(i + 1).last() == i as usize);
            }
            if self.events[i].date.days == d.days {
                r.push(i);
            }
            i = i + 1;
        }
        assert(all.take(i as int) =~= all);
        r
    }

    /// Positions of the todos due on day `d`.
    pub fn due_on(&self, d: Date) -> (r: Vec<usize>)
        ensures
            r@ == positions_on(self.due@.len(), |i: int| self.due@[i].due_date == Some(d)),
    {
        let ghost on = |i: int| self.due@[i].due_date == Some(d);
        let ghost all = Seq::new(self.due@.len(), |i: int| i as usize);
        let mut r: Vec<usize> = Vec::new();
        let mut i: usize = 0;
        proof {
            reveal(Seq::filter);
            assert(all.take(0) =~= Seq::<usize>::empty());
        }
        while i < self.due.len()
            invariant
                i <= self.due@.len(),
                all == Seq::new(self.due@.len(), |i: int| i as usize),
                r@ == all.take(i as int).filter(|j: usize| on(j as int)),
                on == (|i: int| self.due@[i].due_date == Some(d)),
            decreases self.due.len() - i,
        {
            proof {
                reveal(Seq::filter);
                assert(all.take(i + 1).drop_last() =~= all.take(i as int));
                assert(all.take(i + 1).last() == i as usize);
            }
            let hit = match self.due[i].due_date {
                Some(x) => x.days == d.days,
                None => false,
            };
            if hit {
                r.push(i);
            }
            i = i + 1;
        }
        assert(all.take(i as int) =~= all);
        r
    }
}

fn blank_event_form() -> (r: EventForm)
    ensures
        r.fields@.len() == 3,
        form_texts(r) == seq![Seq::<char>::empty(), Seq::<char>::empty(), Seq::<char>::empty()],
        r.focus == 0,
{
    let mut fields: Vec<String> = Vec::new();
    fields.push(String::new());
    fields.push(String::new());
    fields.push(String::new());
    let r = EventForm { fields, focus: 0 };
    assert(form_texts(r) =~= seq![Seq::<char>::empty(), Seq::<char>::empty(), Seq::<char>::empty()]);
    r
}

fn move_cursor(key: Key, c: Date, today: Date) -> (r: Option<Option<Date>>)
    requires
        c.wf(),
        today.wf(),
    ensures
        match move_target(key, c.days as int, today.days as int) {
            None => r is None,
            Some(t) => r matches Some(o) && (reachable(t) ==> (o matches Some(d) && Some(d.days as int) == t && d.wf()))
                && (!reachable(t) ==> o is None),
        },
{
    if key == Key::Left || key == Key::Char('h') {
        Some(c.add_days(-1))
    } else if key == Key::Right || key == Key::Char('l') {
        Some(c.add_days(1))
    } else if key == Key::Up || key == Key::Char('k') {
        Some(c.add_days(-7))
    } else if key == Key::Down || key == Key::Char('j') {
        Some(c.add_days(7))
    } else if key == Key::Char('[') {
        Some(c.month_start().pred())
    } else if key == Key::Char(']') {
        Some(c.next_month_start())
    } else if key == Key::Char('t') {
        Some(Some(today))
    } else {
        None
    }
}

/// What a key does to the open event form `f` (whose day is `cursor`): the form after
/// it, the input mode and status line after it, and the command it gives.
pub open spec fn event_form_step(
    f: EventForm,
    cursor: Date,
    key: Key,
    final_form: Option<EventForm>,
    old_mode: InputMode,
    final_mode: InputMode,
    old_status: Option<String>,
    final_status: Option<String>,
    r: Command,
) -> bool {
    let fv = form_texts(f);
    let kept_form = |fields: Seq<Seq<char>>, focus: int| final_form matches Some(g) && form_texts(g) == fields && g.focus == focus;
    let calm = r == quiet() && final_mode == old_mode && final_status == old_status;
    if key == Key::Esc {
        final_form is None && final_mode == InputMode::Normal && r == quiet() && final_status == old_status
    } else if key == Key::Tab || key == Key::Down {
        kept_form(fv, (f.focus + 1) % 3) && calm
    } else if key == Key::BackTab || key == Key::Up {
        kept_form(fv, (f.focus + 2) % 3) && calm
    } else if key == Key::Backspace || key is Char {
        kept_form(fv.update(f.focus as int, edited(fv[f.focus as int], key)), f.focus as int) && calm
    } else if key == Key::Enter {
        let title = trimmed(fv[0]);
        let time = trimmed(fv[1]);
        let cat = trimmed(fv[2]);
        if title.len() == 0 {
            final_form == Some(f) && r == quiet() && final_mode == old_mode
                && says(final_status, "title is required"@)
        } else if time.len() > 0 && !chrono_time_hm_ok(time) {
            final_form == Some(f) && r == quiet() && final_mode == old_mode
                && says(final_status, "time must be HH:MM"@)
        } else {
            &&& r.effect matches Effect::EventAdd { title: t, date, time: tm, category }
                && t@ == title && date == cursor
                && (time.len() == 0 ==> tm is None) && (time.len() > 0 ==> (tm matches Some(x) && x@ == time))
                && (cat.len() == 0 ==> category@ == "general"@) && (cat.len() > 0 ==> category@ == cat)
            &&& r.reload == Reload { calendar: true, ..no_reload() }
            &&& final_form is None && final_mode == InputMode::Normal && final_status == old_status
        }
    } else {
        final_form == Some(f) && calm
    }
}

/// What a key does in the calendar module: the state, input mode and status line after
/// it, and the command it gives.
pub open spec fn calendar_key_step(pre: CalendarState, post: CalendarState, pre_mode: InputMode, post_mode: InputMode, pre_status: Option<String>, post_status: Option<String>, key: Key, today: Date, r: Command) -> bool {
    &&& post.events == pre.events
    &&& post.due == pre.due
    &&& pre.form is None ==> {
        let c = pre.cursor;
        &&& post_status == pre_status
        &&& match move_target(key, c.days as int, today.days as int) {
            Some(t) => {
                let d = t.unwrap();
                &&& reachable(t) ==> post.cursor.days == d
                &&& !reachable(t) ==> post.cursor == c
                &&& post.form is None && post_mode == pre_mode
                &&& r.effect == Effect::Nothing
                &&& r.reload == Reload {
                    calendar: reachable(t) && (chrono_ymd(d).0 != chrono_ymd(c.days as int).0 || chrono_ymd(d).1 != chrono_ymd(c.days as int).1),
                    ..no_reload()
                }
            },
            None => if key == Key::Char('a') {
                &&& post.form matches Some(f) && f.focus == 0
                    && form_texts(f) == seq![Seq::<char>::empty(), Seq::<char>::empty(), Seq::<char>::empty()]
                &&& post_mode == InputMode::Editing
                &&& r == quiet() && post.cursor == c
            } else if key == Key::Char('d') {
                &&& post.cursor == c && post.form is None && post_mode == pre_mode
                &&& match first_on(pre.events@, c) {
                    Some(i) => r == Command {
                        effect: Effect::EventDelete { id: pre.events@[i].id },
                        reload: Reload { calendar: true, ..no_reload() },
                    },
                    None => r == quiet(),
                }
            } else {
                r == quiet() && post.cursor == c && post.form is None && post_mode == pre_mode
            },
        }
    }
    &&& pre.form is Some ==> post.cursor == pre.cursor
        && event_form_step(pre.form.unwrap(), pre.cursor, key, post.form, pre_mode, post_mode, pre_status, post_status, r)
}

/// Handles a key for the calendar module.
pub fn handle_key(st: &mut CalendarState, mode: &mut InputMode, status: &mut Option<String>, key: Key, today: Date) -> (r: Command)
    requires
        old(st).wf(),
        today.wf(),
    ensures
        final(st).wf(),
        calendar_key_step(*old(st), *final(st), *old(mode), *final(mode), *old(status), *final(status), key, today, r),
{
    if st.form.is_some() {
        return form_key(st, mode, status, key);
    }
    let c = st.cursor;
    match move_cursor(key, c, today) {
        Some(target) => {
            if let Some(d) = target {
                let (y0, m0, _) = c.ymd();
                let (y1, m1, _) = d.ymd();
                st.cursor = d;
                return Command { effect: Effect::Nothing, reload: Reload { calendar: y0 != y1 || m0 != m1, ..reload_none() } };
            }
            nothing()
        },
        None => {
            if key == Key::Char('a') {
                st.form = Some(blank_event_form());
                *mode = InputMode::Editing;
                nothing()
            } else if key == Key::Char('d') {
                match first_event_on(&st.events, c) {
                    Some(i) => {
                        proof {
                            assert(first_on(st.events@, c) == Some(i as int)) by {
                                let j = choose|j: int|
                                    0 <= j < st.events@.len() && (#[trigger] st.events@[j]).date == c
                                        && forall|k: int| 0 <= k < j ==> (#[trigger] st.events@[k]).date != c;
                                if j < i {
                                } else if j > i {
                                    assert(st.events@[i as int].date == c);
                                }
                            }
                        }
                        Command { effect: Effect::EventDelete { id: st.events[i].id }, reload: Reload { calendar: true, ..reload_none() } }
                    },
                    None => nothing(),
                }
            } else {
                nothing()
            }
        },
    }
}

fn form_key(st: &mut CalendarState, mode: &mut InputMode, status: &mut Option<String>, key: Key) -> (r: Command)
    requires
        old(st).wf(),
        old(st).form is Some,
    ensures
        final(st).wf(),
        final(st).events == old(st).events,
        final(st).due == old(st).due,
        final(st).cursor == old(st).cursor,
        event_form_step(old(st).form.unwrap(), old(st).cursor, key, final(st).form, *old(mode), *final(mode), *old(status), *final(status), r),
{
    let mut form = st.form.take().unwrap();
    let ghost fv = form_texts(form);
    if key == Key::Esc {
        *mode = InputMode::Normal;
        return nothing();
    } else if key == Key::Tab || key == Key::Down {
        form.focus = (form.focus + 1) % 3;
    } else if key == Key::BackTab || key == Key::Up {
        form.focus = (form.focus + 2) % 3;
    } else if key == Key::Backspace || matches!(key, Key::Char(_)) {
        let mut text = form.fields[form.focus].clone();
        edit_text(&mut text, key);
        form.fields.set(form.focus, text);
        assert(form_texts(form) =~= fv.update(form.focus as int, edited(fv[form.focus as int], key)));
    } else if key == Key::Enter {
        let title = trim(form.fields[0].as_str());
        if title.is_empty() {
            *status = Some("title is required".to_owned());
            st.form = Some(form);
            return nothing();
        }
        let time = trim(form.fields[1].as_str());
        if !time.is_empty() && !time_hm_ok(time) {
            *status = Some("time must be HH:MM".to_owned());
            st.form = Some(form);
            return nothing();
        }
        let cat = trim(form.fields[2].as_str());
        let category = if cat.is_empty() { "general".to_owned() } else { cat.to_owned() };
        let effect = Effect::EventAdd {
            title: title.to_owned(),
            date: st.cursor,
            time: if time.is_empty() { None } else { Some(time.to_owned()) },
            category,
        };
        *mode = InputMode::Normal;
        return Command { effect, reload: Reload { calendar: true, ..reload_none() } };
    }
    st.form = Some(form);
    nothing()
}

/// Number of grid days from the Monday `start` through the week holding `end`.
pub open spec fn grid_len(start: int, end: int) -> int {
    if end < start { 0 } else { ((end - start) / 7 + 1) * 7 }
}

/// The first day of the grid of the month of `c`: the Monday on or before the first.
pub open spec fn grid_start(c: int) -> int {
    month_first(c) - weekday_index(month_first(c))
}

/// The grid of the month of `c` lies within chrono's range: the month after has a
/// first day, and the grid's first and last days are days chrono represents.
pub open spec fn grid_fits(c: int) -> bool {
    &&& next_month_first(c) is Some
    &&& in_range(grid_start(c))
    &&& ({
        let n = grid_len(grid_start(c), next_month_first(c).unwrap() - 1);
        n == 0 || in_range(grid_start(c) + n - 1)
    })
}

proof fn lemma_grid_len(start: int, end: int)
    ensures
        grid_len(start, end) % 7 == 0,
        grid_len(start, end) >= 0,
        grid_len(start, end) > 0 ==> start + grid_len(start, end) - 7 <= end,
        start + grid_len(start, end) > end,
{
    if end >= start {
        let q = (end - start) / 7;
        assert(q * 7 <= end - start < q * 7 + 7) by (nonlinear_arith)
            requires q == (end - start) / 7, end - start >= 0;
        assert(((q + 1) * 7) % 7 == 0) by (nonlinear_arith);
        assert((q + 1) * 7 == q * 7 + 7) by (nonlinear_arith);
        assert(q >= 0) by (nonlinear_arith) requires q == (end - start) / 7, end - start >= 0;
    }
}

/// The days of the month grid of the cursor's month: whole weeks from the Monday on or
/// before the first of the month through the week holding the month's last day. None
/// exactly where the grid leaves chrono's range.
pub fn month_grid(cursor: Date) -> (r: Option<Vec<Date>>)
    requires
        cursor.wf(),
    ensures
        r is Some <==> grid_fits(cursor.days as int),
        r matches Some(cells) ==> {
            let first = month_first(cursor.days as int);
            let start = first - weekday_index(first);
            let end = next_month_first(cursor.days as int).unwrap() - 1;
            let n = cells@.len();
            &&& next_month_first(cursor.days as int) is Some
            &&& start == grid_start(cursor.days as int)
            &&& n == grid_len(start, end)
            &&& weekday_index(start) == 0
            &&& n % 7 == 0
            &&& forall|i: int| 0 <= i < n ==> (#[trigger] cells@[i]).days == start + i && cells@[i].wf()
            &&& n > 0 ==> start + n - 7 <= end
            &&& start + n > end
        },
{
    let start = cursor.month_start();
    let next = match cursor.next_month_start() {
        Some(n) => n,
        None => return None,
    };
    let lead = start.weekday();
    let first = match start.add_days(-(lead as i64)) {
        Some(d) => d,
        None => return None,
    };
    let end: i64 = next.days as i64 - 1;
    let n: i64 = if end < first.days as i64 { 0 } else { ((end - first.days as i64) / 7 + 1) * 7 };
    proof {
        lemma_grid_len(first.days as int, end as int);
    }
    assert(n == grid_len(first.days as int, end as int));
    if n > 0 && first.days as i64 + n - 1 > crate::date::MAX_DAYS as i64 {
        return None;
    }
    let mut cells: Vec<Date> = Vec::new();
    let mut i: i64 = 0;
    while i < n
        invariant
            0 <= i <= n,
            first.wf(),
            n == 0 || in_range(first.days + n - 1),
            cells@.len() == i,
            forall|j: int| 0 <= j < i ==> (#[trigger] cells@[j]).days == first.days + j && cells@[j].wf(),
        decreases n - i,
    {
        cells.push(Date { days: (first.days as i64 + i) as i32 });
        i = i + 1;
    }
    Some(cells)
}

/// What a grid cell shows under its day number: a dot per event (at most three), then
/// a due marker if todos are due and there is room, centred in `cell_w` columns.
/// Returns (dots, due marker shown, blank columns before, blank columns after).
pub fn cell_marks(n_events: usize, n_due: usize, cell_w: usize) -> (r: (usize, bool, usize, usize))
    ensures
        r.0 == (if n_events < 3 { n_events } else { 3 }),
        r.1 == (n_due > 0 && r.0 < 3),
        ({
            let count = r.0 + (if r.1 { 1int } else { 0int });
            let lead = if cell_w >= count { (cell_w - count) / 2 } else { 0 };
            &&& r.2 == lead
            &&& r.3 == (if cell_w >= lead + count { cell_w - (lead + count) } else { 0 })
        }),
{
    let dots = if n_events < 3 { n_events } else { 3 };
    let due = n_due > 0 && dots < 3;
    let count = dots + if due { 1 } else { 0 };
    let lead = if cell_w >= count { (cell_w - count) / 2 } else { 0 };
    let tail = if cell_w >= lead + count { cell_w - (lead + count) } else { 0 };
    (dots, due, lead, tail)
}

/// A step back and a step forward (a day, or a week) bring the cursor back where it
/// was, wherever both days are ones chrono represents.
pub proof fn lemma_move_back_and_forth(
    s0: CalendarState,
    s1: CalendarState,
    s2: CalendarState,
    m0: InputMode,
    m1: InputMode,
    m2: InputMode,
    st0: Option<String>,
    st1: Option<String>,
    st2: Option<String>,
    back: Key,
    forth: Key,
    today: Date,
    r1: Command,
    r2: Command,
)
    requires
        s0.form is None,
        s0.wf(),
        (back == Key::Left && forth == Key::Right) || (back == Key::Up && forth == Key::Down),
        in_range(s0.cursor.days - (if back == Key::Left { 1int } else { 7int })),
        calendar_key_step(s0, s1, m0, m1, st0, st1, back, today, r1),
        calendar_key_step(s1, s2, m1, m2, st1, st2, forth, today, r2),
    ensures
        s2.cursor.days == s0.cursor.days,
        s2.form is None,
        m2 == m0,
        st2 == st0,
{
}

/// The vim keys move as the arrows do: `h`/`l` a day back or forward, `k`/`j` a week
/// back or forward, wherever the day reached is one chrono represents.
pub proof fn lemma_vim_keys_move_like_arrows(
    s0: CalendarState,
    s1: CalendarState,
    m0: InputMode,
    m1: InputMode,
    st0: Option<String>,
    st1: Option<String>,
    key: Key,
    today: Date,
    r: Command,
)
    requires
        s0.form is None,
        calendar_key_step(s0, s1, m0, m1, st0, st1, key, today, r),
    ensures
        (key == Key::Char('h') || key == Key::Left) && in_range(s0.cursor.days - 1) ==> s1.cursor.days == s0.cursor.days - 1,
        (key == Key::Char('l') || key == Key::Right) && in_range(s0.cursor.days + 1) ==> s1.cursor.days == s0.cursor.days + 1,
        (key == Key::Char('k') || key == Key::Up) && in_range(s0.cursor.days - 7) ==> s1.cursor.days == s0.cursor.days - 7,
        (key == Key::Char('j') || key == Key::Down) && in_range(s0.cursor.days + 7) ==> s1.cursor.days == s0.cursor.days + 7,
        key == Key::Char('t') && in_range(today.days as int) ==> s1.cursor.days == today.days,
{
}

} // verus!
