use crate::command::{no_reload, nothing, quiet, reload_none, Command, Effect, Key};
use vstd::prelude::*;

verus! {

/// Milliseconds in a minute.
pub const MINUTE_MS: i64 = 60000;

/// The kind of a pomodoro session.
#[derive(Clone, Copy, Debug, PartialEq, Eq, Structural)]
pub enum Kind {
    Focus,
    Break,
}

impl Kind {
    /// The name stored for the kind.
    pub fn as_str(self) -> (r: &'static str)
        ensures
            self == Kind::Focus ==> r@ == "focus"@,
            self == Kind::Break ==> r@ == "break"@,
    {
        match self {
            Kind::Focus => "focus",
            Kind::Break => "break",
        }
    }
}

/// A running (or paused) session. Instants are milliseconds since the Unix epoch and
/// lengths are milliseconds.
#[derive(Clone, Debug, PartialEq, Eq)]
pub struct ActiveSession {
    pub db_id: i64,
    pub kind: Kind,
    pub todo_title: Option<String>,
    pub started_at: i64,
    pub duration: i64,
    pub paused_at: Option<i64>,
}

/// The instant at which the clock of `s` reads, given the time now: the pause instant
/// while it is paused.
pub open spec fn clock_at(s: ActiveSession, now: int) -> int {
    match s.paused_at {
        Some(p) => p as int,
        None => now,
    }
}

/// Time left in the session at `now`.
pub open spec fn remaining_at(s: ActiveSession, now: int) -> int {
    s.duration - (clock_at(s, now) - s.started_at)
}

pub open spec fn fits_i64(x: int) -> bool {
    i64::MIN <= x <= i64::MAX
}

/// `s` paused at the instant `p`.
pub open spec fn paused_spec(s: ActiveSession, p: i64) -> ActiveSession {
    ActiveSession { paused_at: Some(p), ..s }
}

/// `s` resumed at `now`: the start moves later by the length of the pause.
pub open spec fn resumed_spec(s: ActiveSession, now: int) -> ActiveSession {
    match s.paused_at {
        Some(p) => ActiveSession { started_at: (s.started_at + (now - p)) as i64, paused_at: None, ..s },
        None => s,
    }
}

impl ActiveSession {
    /// Time left at `now`; it stands still while the session is paused.
    pub fn remaining(&self, now: i64) -> (r: i64)
        requires
            fits_i64(clock_at(*self, now as int) - self.started_at),
            fits_i64(remaining_at(*self, now as int)),
        ensures
            r == remaining_at(*self, now as int),
    {
        let effective_now = match self.paused_at {
            Some(p) => p,
            None => now,
        };
        self.duration - (effective_now - self.started_at)
    }

    /// Resumes a paused session, moving its start later by the length of the pause so
    /// that no time is lost.
    pub fn resume(&mut self, now: i64)
        requires
            old(self).paused_at matches Some(p) ==> fits_i64(now - p) && fits_i64(old(self).started_at + (now - p)),
        ensures
            *final(self) == resumed_spec(*old(self), now as int),
            final(self).paused_at is None,
    {
        if let Some(p) = self.paused_at.take() {
            self.started_at = self.started_at + (now - p);
        }
    }
}

/// While a session is paused, the time left does not change as the clock advances.
pub proof fn lemma_frozen_while_paused(s: ActiveSession, now1: int, now2: int)
    requires
        s.paused_at is Some,
    ensures
        remaining_at(s, now1) == remaining_at(s, now2),
{
}

/// A running session counts down one for one with the clock.
pub proof fn lemma_counts_down(s: ActiveSession, now: int, k: int)
    requires
        s.paused_at is None,
    ensures
        remaining_at(s, now + k) == remaining_at(s, now) - k,
{
}

/// Pausing at `p` and resuming at any later `now` leaves the session with the time
/// left that it had at `p`: no time is lost or gained by the pause.
pub proof fn lemma_pause_resume_keeps_time(s: ActiveSession, p: i64, now: int)
    requires
        s.paused_at is None,
        fits_i64(s.started_at + (now - p)),
    ensures
        remaining_at(resumed_spec(paused_spec(s, p), now), now) == remaining_at(s, p as int),
        resumed_spec(paused_spec(s, p), now).paused_at is None,
{
}

/// The pomodoro module's state.
#[derive(Debug)]
pub struct PomodoroState {
    pub active: Option<ActiveSession>,
    pub today_count: u32,
    pub suggest_break: bool,
}

impl PomodoroState {
    pub fn new() -> (r: PomodoroState)
        ensures
            r.active is None,
            r.today_count == 0,
            !r.suggest_break,
    {
        PomodoroState { active: None, today_count: 0, suggest_break: false }
    }

    /// Takes the number of focus sessions completed today, as stored.
    pub fn load(&mut self, today_count: u32)
        ensures
            final(self).today_count == today_count,
            final(self).active == old(self).active,
            final(self).suggest_break == old(self).suggest_break,
    {
        self.today_count = today_count;
    }

    /// Records a session that was just stored under `db_id`, starting at `now`.
    pub fn begin(&mut self, db_id: i64, kind: Kind, minutes: u64, todo_title: Option<String>, now: i64)
        requires
            minutes * MINUTE_MS <= i64::MAX,
        ensures
            final(self).active == Some(ActiveSession {
                db_id,
                kind,
                todo_title,
                started_at: now,
                duration: (minutes * MINUTE_MS) as i64,
                paused_at: None,
            }),
            !final(self).suggest_break,
            final(self).today_count == old(self).today_count,
    {
        self.active = Some(ActiveSession {
            db_id,
            kind,
            todo_title,
            started_at: now,
            duration: (minutes as i64) * MINUTE_MS,
            paused_at: None,
        });
        self.suggest_break = false;
    }
}

/// Minutes and seconds shown for a length of time in milliseconds; negative lengths
/// show as zero.
pub fn mmss(ms: i64) -> (r: (i64, i64))
    ensures
        ms < 1000 ==> r == (0i64, 0i64),
        ms >= 1000 ==> r.0 == (ms / 1000) / 60 && r.1 == (ms / 1000) % 60,
{
    let secs = if ms < 0 { 0 } else { ms / 1000 };
    (secs / 60, secs % 60)
}

/// Glyph of the big clock font for a character: its digit, or the colon (10) for anything else.
pub fn digit_index(c: char) -> (r: usize)
    ensures
        '0' <= c <= '9' ==> r == c as int - '0' as int,
        !('0' <= c <= '9') ==> r == 10,
{
    if '0' <= c && c <= '9' {
        (c as u32 - '0' as u32) as usize
    } else {
        10
    }
}

/// A length in minutes moved up by `step`, stopping at the largest `u64`.
pub open spec fn longer(m: u64, step: u64) -> u64 {
    if m + step > u64::MAX { u64::MAX } else { (m + step) as u64 }
}

/// A length in minutes moved down by `step`; where that would leave no time at all,
/// the shortest length, one minute.
pub open spec fn shorter(m: u64, step: u64) -> u64 {
    if m > step { (m - step) as u64 } else { 1 }
}

/// A session whose pause can be resumed at `now` without leaving the range of `i64`.
pub open spec fn resumable_at(s: ActiveSession, now: int) -> bool {
    s.paused_at matches Some(p) ==> fits_i64(now - p) && fits_i64(s.started_at + (now - p))
}

/// What a key does in the pomodoro module: the state and session lengths after it, and
/// the command it gives.
pub open spec fn pomodoro_key_step(pre: PomodoroState, post: PomodoroState, pre_cfg: crate::config::PomodoroCfg, post_cfg: crate::config::PomodoroCfg, key: Key, now: i64, r: Command) -> bool {
    &&& post.today_count == pre.today_count
    &&& post.suggest_break == pre.suggest_break
    &&& key == Key::Char('s') ==> {
        &&& post.active == pre.active && post_cfg == pre_cfg
        &&& pre.active is Some ==> r == quiet()
        &&& pre.active is None ==> r == Command {
            effect: Effect::PomoStart {
                kind: if pre.suggest_break { Kind::Break } else { Kind::Focus },
                minutes: if pre.suggest_break { pre_cfg.break_min } else { pre_cfg.focus_min },
                todo_id: None,
                todo_title: None,
            },
            reload: no_reload(),
        }
    }
    &&& key == Key::Char(' ') ==> {
        &&& r == quiet() && post_cfg == pre_cfg
        &&& pre.active is None ==> post.active is None
        &&& pre.active matches Some(a) ==> (a.paused_at is Some ==> post.active == Some(resumed_spec(a, now as int)))
            && (a.paused_at is None ==> post.active == Some(paused_spec(a, now)))
    }
    &&& key == Key::Char('x') ==> {
        &&& post.active is None && post_cfg == pre_cfg
        &&& pre.active matches Some(a) ==> r == Command {
            effect: Effect::PomoFinish { db_id: a.db_id, completed: false },
            reload: no_reload(),
        }
        &&& pre.active is None ==> r == quiet()
    }
    &&& key == Key::Char('+') ==> post_cfg.focus_min == longer(pre_cfg.focus_min, 5)
        && post_cfg.break_min == pre_cfg.break_min && post.active == pre.active && r == quiet()
    &&& key == Key::Char('-') ==> post_cfg.focus_min == shorter(pre_cfg.focus_min, 5)
        && post_cfg.break_min == pre_cfg.break_min && post.active == pre.active && r == quiet()
    &&& key == Key::Char(']') ==> post_cfg.break_min == longer(pre_cfg.break_min, 1)
        && post_cfg.focus_min == pre_cfg.focus_min && post.active == pre.active && r == quiet()
    &&& key == Key::Char('[') ==> post_cfg.break_min == shorter(pre_cfg.break_min, 1)
        && post_cfg.focus_min == pre_cfg.focus_min && post.active == pre.active && r == quiet()
    &&& !(key == Key::Char('s') || key == Key::Char(' ') || key == Key::Char('x')
        || key == Key::Char('+') || key == Key::Char('-') || key == Key::Char(']')
        || key == Key::Char('[')) ==> post.active == pre.active && post_cfg == pre_cfg && r == quiet()
}

/// Handles a key for the pomodoro module: `s` starts a session (the suggested break
/// after a focus session), space pauses or resumes, `x` abandons, `+`/`-` change the
/// focus length by five minutes and `]`/`[` the break length by one.
pub fn handle_key(st: &mut PomodoroState, cfg: &mut crate::config::PomodoroCfg, key: Key, now: i64) -> (r: Command)
    requires
        old(st).active matches Some(a) ==> resumable_at(a, now as int),
    ensures
        pomodoro_key_step(*old(st), *final(st), *old(cfg), *final(cfg), key, now, r),
{
    if key == Key::Char('s') {
        if st.active.is_none() {
            let (kind, minutes) = if st.suggest_break { (Kind::Break, cfg.break_min) } else { (Kind::Focus, cfg.focus_min) };
            return Command { effect: Effect::PomoStart { kind, minutes, todo_id: None, todo_title: None }, reload: reload_none() };
        }
        nothing()
    } else if key == Key::Char(' ') {
        if let Some(mut a) = st.active.take() {
            if a.paused_at.is_some() {
                a.resume(now);
            } else {
                a.paused_at = Some(now);
            }
            st.active = Some(a);
        }
        nothing()
    } else if key == Key::Char('x') {
        match st.active.take() {
            Some(a) => Command { effect: Effect::PomoFinish { db_id: a.db_id, completed: false }, reload: reload_none() },
            None => nothing(),
        }
    } else if key == Key::Char('+') {
        cfg.focus_min = if cfg.focus_min > u64::MAX - 5 { u64::MAX } else { cfg.focus_min + 5 };
        nothing()
    } else if key == Key::Char('-') {
        cfg.focus_min = if cfg.focus_min > 5 { cfg.focus_min - 5 } else { 1 };
        nothing()
    } else if key == Key::Char(']') {
        cfg.break_min = if cfg.break_min == u64::MAX { u64::MAX } else { cfg.break_min + 1 };
        nothing()
    } else if key == Key::Char('[') {
        cfg.break_min = if cfg.break_min > 1 { cfg.break_min - 1 } else { 1 };
        nothing()
    } else {
        nothing()
    }
}

/// The session that has run out at `now`, if any: its stored id and kind.
pub fn due_to_finish(st: &PomodoroState, now: i64) -> (r: Option<(i64, Kind)>)
    requires
        st.active matches Some(a) ==> fits_i64(clock_at(a, now as int) - a.started_at) && fits_i64(remaining_at(a, now as int)),
    ensures
        match st.active {
            None => r is None,
            Some(a) => if remaining_at(a, now as int) > 0 { r is None } else { r == Some((a.db_id, a.kind)) },
        },
{
    match &st.active {
        None => None,
        Some(a) => {
            if a.remaining(now) > 0 {
                None
            } else {
                Some((a.db_id, a.kind))
            }
        },
    }
}

/// After a session ran out and was stored as completed: a focus session counts
/// towards today (`today_count` is the stored count, or none if it could not be read)
/// and suggests a break; the status line says what comes next.
pub fn finished(st: &mut PomodoroState, status: &mut Option<String>, kind: Kind, today_count: Option<u32>)
    ensures
        final(st).active is None,
        kind == Kind::Focus ==> {
            &&& final(st).today_count == (match today_count { Some(c) => c, None => 0 })
            &&& final(st).suggest_break
            &&& *final(status) matches Some(m) && m@ == "focus done — s starts a 5m break"@
        },
        kind == Kind::Break ==> {
            &&& final(st).today_count == old(st).today_count
            &&& final(st).suggest_break == old(st).suggest_break
            &&& *final(status) matches Some(m) && m@ == "break over — s starts focus"@
        },
{
    match kind {
        Kind::Focus => {
            st.today_count = match today_count {
                Some(c) => c,
                None => 0,
            };
            st.suggest_break = true;
            *status = Some("focus done — s starts a 5m break".to_owned());
        },
        Kind::Break => {
            *status = Some("break over — s starts focus".to_owned());
        },
    }
    st.active = None;
}

/// `+` then `-` gives back the focus length, and `]` then `[` the break length, within
/// every length from one minute up to where `+` or `]` would pass the largest `u64`.
pub proof fn lemma_length_keys_undo(
    s0: PomodoroState,
    s1: PomodoroState,
    s2: PomodoroState,
    c0: crate::config::PomodoroCfg,
    c1: crate::config::PomodoroCfg,
    c2: crate::config::PomodoroCfg,
    up: Key,
    down: Key,
    now: i64,
    r1: Command,
    r2: Command,
)
    requires
        (up == Key::Char('+') && down == Key::Char('-') && 1 <= c0.focus_min <= u64::MAX - 5)
            || (up == Key::Char(']') && down == Key::Char('[') && 1 <= c0.break_min <= u64::MAX - 1),
        pomodoro_key_step(s0, s1, c0, c1, up, now, r1),
        pomodoro_key_step(s1, s2, c1, c2, down, now, r2),
    ensures
        c2 == c0,
        s2.active == s0.active,
        r1 == quiet() && r2 == quiet(),
{
}

/// Abandoning with `x` ends the running session and stores it as not completed; with
/// no session running, `x` asks for nothing.
pub proof fn lemma_abandon_is_not_completion(
    s0: PomodoroState,
    s1: PomodoroState,
    c0: crate::config::PomodoroCfg,
    c1: crate::config::PomodoroCfg,
    now: i64,
    r: Command,
)
    requires
        pomodoro_key_step(s0, s1, c0, c1, Key::Char('x'), now, r),
    ensures
        s1.active is None,
        c1 == c0,
        s0.active matches Some(a) ==> r.effect == (Effect::PomoFinish { db_id: a.db_id, completed: false }),
        s0.active is None ==> r.effect == Effect::Nothing,
        forall|id: i64| r.effect != (Effect::PomoFinish { db_id: id, completed: true }),
{
}

} // verus!
