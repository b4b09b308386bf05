use crate::date::{weekday_index, Date};
use crate::pet::{Reaction, Skin};
use crate::text::{concat, decimal, decimal_text, string_of};
use vstd::prelude::*;

verus! {

/// The span of days the stats screen looks back over.
#[derive(Clone, Copy, Debug, PartialEq, Eq, Structural)]
pub enum Range {
    Week,
    Month,
    Year,
}

impl Range {
    pub open spec fn span(self) -> int {
        match self {
            Range::Week => 7,
            Range::Month => 30,
            Range::Year => 365,
        }
    }

    pub open spec fn following(self) -> Range {
        match self {
            Range::Week => Range::Month,
            Range::Month => Range::Year,
            Range::Year => Range::Week,
        }
    }

    pub fn label(self) -> (r: &'static str)
        ensures
            self == Range::Week ==> r@ == "week"@,
            self == Range::Month ==> r@ == "month"@,
            self == Range::Year ==> r@ == "year"@,
    {
        match self {
            Range::Week => "week",
            Range::Month => "month",
            Range::Year => "year",
        }
    }

    /// Days the range covers.
    pub fn days(self) -> (r: i64)
        ensures
            r == self.span(),
    {
        match self {
            Range::Week => 7,
            Range::Month => 30,
            Range::Year => 365,
        }
    }

    /// The next range in the cycle week, month, year.
    pub fn next(self) -> (r: Range)
        ensures
            r == self.following(),
    {
        match self {
            Range::Week => Range::Month,
            Range::Month => Range::Year,
            Range::Year => Range::Week,
        }
    }
}

impl Default for Range {
    fn default() -> (r: Self)
        ensures
            r == Range::Week,
    {
        Range::Week
    }
}

/// Pressing the range key three times comes back to the same range.
pub proof fn lemma_range_cycle(r: Range)
    ensures
        r.following().following().following() == r,
        r.following() != r,
{
}

/// The stats module's state.
#[derive(Debug)]
pub struct StatsState {
    pub range: Range,
    pub skin: Skin,
    /// The pet's answer to the last key on this screen, if it was a pat or a boop.
    pub reaction: Option<Reaction>,
}

impl StatsState {
    pub fn new() -> (r: StatsState)
        ensures
            r.range == Range::Week,
            r.skin == Skin::Comet,
            r.reaction is None,
    {
        StatsState { range: Range::Week, skin: Skin::Comet, reaction: None }
    }
}

/// What a key does on the stats screen: `r` cycles the range and `c` the pet's skin;
/// `p` pets the pet and `b` boops it, and the pet answers until the next key.
pub open spec fn stats_key_step(pre: StatsState, post: StatsState, key: crate::command::Key) -> bool {
    &&& post.range == (if key == crate::command::Key::Char('r') { pre.range.following() } else { pre.range })
    &&& post.skin == (if key == crate::command::Key::Char('c') { pre.skin.following() } else { pre.skin })
    &&& post.reaction == (if key == crate::command::Key::Char('p') {
        Some(Reaction::Petted)
    } else if key == crate::command::Key::Char('b') {
        Some(Reaction::Booped)
    } else {
        None
    })
}

/// Handles a key for the stats screen.
pub fn handle_key(st: &mut StatsState, key: crate::command::Key)
    ensures
        stats_key_step(*old(st), *final(st), key),
{
    st.reaction = None;
    if key == crate::command::Key::Char('r') {
        st.range = st.range.next();
    } else if key == crate::command::Key::Char('c') {
        st.skin = st.skin.next();
    } else if key == crate::command::Key::Char('p') {
        st.reaction = Some(Reaction::Petted);
    } else if key == crate::command::Key::Char('b') {
        st.reaction = Some(Reaction::Booped);
    }
}

/// The first day the range covers, `days` before today; none at the start of chrono's range.
pub fn since_for(range: Range, today: Date) -> (r: Option<Date>)
    requires
        today.wf(),
    ensures
        r matches Some(d) ==> d.days == today.days - range.span() && d.wf(),
        r is None ==> today.days - range.span() < crate::date::MIN_DAYS,
{
    today.add_days(-range.days())
}

/// Two-digit, zero-padded numeral of `n < 100`.
pub open spec fn pad2(n: nat) -> Seq<char> {
    if n < 10 { seq!['0'] + decimal(n) } else { decimal(n) }
}

/// Minutes as hours and minutes: `1h 05m`.
pub open spec fn fmt_hm_spec(min: nat) -> Seq<char> {
    decimal(min / 60) + "h "@ + pad2(min % 60) + "m"@
}

/// Writes minutes as hours and minutes, like `1h 05m`.
pub fn fmt_hm(min: u32) -> (r: String)
    ensures
        r@ == fmt_hm_spec(min as nat),
{
    let h = decimal_text((min / 60) as u64);
    let m = min % 60;
    let mm = if m < 10 { concat("0", decimal_text(m as u64).as_str()) } else { decimal_text(m as u64) };
    let a = concat(h.as_str(), "h ");
    let b = concat(a.as_str(), mm.as_str());
    let r = concat(b.as_str(), "m");
    proof {
        reveal_strlit("0");
        assert(seq!['0'] =~= "0"@);
    }
    r
}

/// The bar heights of the sparkline.
pub open spec fn spark_glyph(level: int) -> char {
    if level == 0 {
        '▁'
    } else if level == 1 {
        '▂'
    } else if level == 2 {
        '▃'
    } else if level == 3 {
        '▅'
    } else {
        '▇'
    }
}

/// The bar level of a count out of `max` (taken as at least 1): four times the
/// ratio rounded half up, at most 4.
pub open spec fn spark_level(c: nat, max: nat) -> int {
    let m = if max == 0 { 1 } else { max };
    let l = (8 * c + m) / (2 * m);
    if l > 4 { 4 } else { l as int }
}

/// One bar per count, scaled against `max`.
pub fn spark_chars(counts: &Vec<u32>, max: u32) -> (r: String)
    ensures
        r@.len() == counts@.len(),
        forall|i: int| 0 <= i < counts@.len() ==> r@[i] == spark_glyph(spark_level(counts@[i] as nat, max as nat)),
{
    let m: u64 = if max == 0 { 1 } else { max as u64 };
    let mut out: Vec<char> = Vec::new();
    let mut i: usize = 0;
    while i < counts.len()
        invariant
            i <= counts@.len(),
            m == (if max == 0 { 1 } else { max as u64 }),
            out@.len() == i,
            forall|j: int| 0 <= j < i ==> out@[j] == spark_glyph(spark_level(counts@[j] as nat, max as nat)),
        decreases counts.len() - i,
    {
        let c = counts[i] as u64;
        let l0 = (8 * c + m) / (2 * m);
        let l = if l0 > 4 { 4 } else { l0 };
        let g = if l == 0 {
            '▁'
        } else if l == 1 {
            '▂'
        } else if l == 2 {
            '▃'
        } else if l == 3 {
            '▅'
        } else {
            '▇'
        };
        out.push(g);
        i = i + 1;
    }
    string_of(&out)
}

/// Monday of the week of `today` and the Monday before it.
pub fn week_starts(today: Date) -> (r: Option<(Date, Date)>)
    requires
        today.wf(),
    ensures
        r matches Some((this_monday, last_monday)) ==> {
            &&& this_monday.days == today.days - weekday_index(today.days as int)
            &&& last_monday.days == this_monday.days - 7
            &&& weekday_index(this_monday.days as int) == 0
            &&& this_monday.wf() && last_monday.wf()
        },
        r is None ==> today.days - weekday_index(today.days as int) - 7 < crate::date::MIN_DAYS,
{
    let wd = today.weekday();
    match today.add_days(-(wd as i64)) {
        Some(this_monday) => match this_monday.add_days(-7) {
            Some(last_monday) => Some((this_monday, last_monday)),
            None => None,
        },
        None => None,
    }
}

/// A week's figures: percent of habit checks done, todos closed, focus minutes.
#[derive(Clone, Copy, Debug, PartialEq, Eq, Structural)]
pub struct WeekStats {
    pub habit_pct: u32,
    pub todos_done: u32,
    pub focus_min: u32,
}

/// Changes from the week before, per figure.
pub fn week_deltas(cur: WeekStats, prev: WeekStats) -> (r: (i64, i64, i64))
    ensures
        r.0 == cur.habit_pct - prev.habit_pct,
        r.1 == cur.todos_done - prev.todos_done,
        r.2 == cur.focus_min - prev.focus_min,
{
    (
        cur.habit_pct as i64 - prev.habit_pct as i64,
        cur.todos_done as i64 - prev.todos_done as i64,
        cur.focus_min as i64 - prev.focus_min as i64,
    )
}

/// The arrow shown for a change: up for no change or a rise, down for a fall.
pub fn trend_arrow(delta: i64) -> (r: (&'static str, bool))
    ensures
        delta >= 0 ==> r.0@ == "▲"@ && r.1,
        delta < 0 ==> r.0@ == "▼"@ && !r.1,
{
    if delta >= 0 {
        ("▲", true)
    } else {
        ("▼", false)
    }
}

/// A change written with its sign: `+3`, `+0`, `-12`.
pub open spec fn plus_signed(x: int) -> Seq<char> {
    if x >= 0 { "+"@ + decimal(x as nat) } else { "-"@ + decimal((-x) as nat) }
}

pub open spec fn arrow_text(d: int) -> Seq<char> {
    if d >= 0 { "▲"@ } else { "▼"@ }
}

/// A row of the week review: the label (padded to fifteen columns) and this week's
/// figure; the arrow and the change from last week; whether that change is a rise
/// (shown green) or a fall (red).
pub open spec fn row_view(r: (String, String, bool)) -> (Seq<char>, Seq<char>, bool) {
    (r.0@, r.1@, r.2)
}

/// The week review's rows: habits in percent, todos closed, and focus time in hours
/// and minutes, each with the change from the week before.
pub open spec fn week_rows_spec(cur: WeekStats, prev: WeekStats) -> Seq<(Seq<char>, Seq<char>, bool)> {
    let dh = cur.habit_pct - prev.habit_pct;
    let dt = cur.todos_done - prev.todos_done;
    let df = cur.focus_min - prev.focus_min;
    seq![
        ("habits         "@ + decimal(cur.habit_pct as nat) + "% "@, arrow_text(dh) + " "@ + plus_signed(dh), dh >= 0),
        ("todos closed   "@ + decimal(cur.todos_done as nat) + " "@, arrow_text(dt) + " "@ + plus_signed(dt), dt >= 0),
        ("focus          "@ + fmt_hm_spec(cur.focus_min as nat) + " "@,
            arrow_text(df) + " "@ + (if df >= 0 { "+"@ } else { "-"@ }) + fmt_hm_spec((if df >= 0 { df } else { -df }) as nat),
            df >= 0),
    ]
}

fn signed_change(d: i64) -> (r: String)
    requires
        -(u32::MAX as int) <= d <= u32::MAX,
    ensures
        r@ == plus_signed(d as int),
{
    if d >= 0 {
        concat("+", decimal_text(d as u64).as_str())
    } else {
        concat("-", decimal_text((-d) as u64).as_str())
    }
}

fn change_text(d: i64, tail: &str) -> (r: String)
    ensures
        r@ == arrow_text(d as int) + " "@ + tail@,
{
    let (a, _) = trend_arrow(d);
    let s = concat(a, " ");
    concat(s.as_str(), tail)
}

/// The rows of the week review, comparing this week with the last.
pub fn week_rows(cur: WeekStats, prev: WeekStats) -> (r: Vec<(String, String, bool)>)
    ensures
        r@.map_values(|x: (String, String, bool)| row_view(x)) == week_rows_spec(cur, prev),
{
    let (dh, dt, df) = week_deltas(cur, prev);
    let h0 = concat("habits         ", decimal_text(cur.habit_pct as u64).as_str());
    let h = concat(h0.as_str(), "% ");
    let hc = change_text(dh, signed_change(dh).as_str());
    let t0 = concat("todos closed   ", decimal_text(cur.todos_done as u64).as_str());
    let t = concat(t0.as_str(), " ");
    let tc = change_text(dt, signed_change(dt).as_str());
    let f0 = concat("focus          ", fmt_hm(cur.focus_min).as_str());
    let f = concat(f0.as_str(), " ");
    let fabs: u32 = if df >= 0 { df as u32 } else { (-df) as u32 };
    let fsign = if df >= 0 { "+" } else { "-" };
    let fs = concat(fsign, fmt_hm(fabs).as_str());
    let fc = change_text(df, fs.as_str());
    assert(fs@ == (if df >= 0 { "+"@ } else { "-"@ }) + fmt_hm_spec((if df >= 0 { df as int } else { -df }) as nat));
    let mut v: Vec<(String, String, bool)> = Vec::new();
    v.push((h, hc, dh >= 0));
    v.push((t, tc, dt >= 0));
    v.push((f, fc, df >= 0));
    let ghost want = week_rows_spec(cur, prev);
    assert(want.len() == 3);
    assert(row_view(v@[0]) == want[0]);
    assert(row_view(v@[1]) == want[1]);
    assert(row_view(v@[2]) == want[2]);
    assert(v@.map_values(|x: (String, String, bool)| row_view(x)) =~= want);
    v
}

/// Habit checks per day for the seven days from `since`: the count stored for the day
/// (the first entry for it), or 0.
pub open spec fn count_for(data: Seq<(Date, u32)>, d: int) -> u32 {
    if exists|j: int| 0 <= j < data.len() && (#[trigger] data[j]).0.days == d {
        let j = choose|j: int|
            0 <= j < data.len() && (#[trigger] data[j]).0.days == d && forall|k: int| 0 <= k < j ==> (#[trigger] data[k]).0.days != d;
        data[j].1
    } else {
        0
    }
}

fn find_count(data: &Vec<(Date, u32)>, d: i128) -> (r: u32)
    ensures
        r == count_for(data@, d as int),
{
    let mut j: usize = 0;
    while j < data.len()
        invariant
            j <= data.len(),
            forall|k: int| 0 <= k < j ==> (#[trigger] data@[k]).0.days != d,
        decreases data.len() - j,
    {
        if data[j].0.days as i128 == d {
            proof {
                let c = choose|c: int|
                    0 <= c < data@.len() && (#[trigger] data@[c]).0.days == d && forall|k: int| 0 <= k < c ==> (#[trigger] data@[k]).0.days != d;
                if c < j {
                } else if c > j {
                    assert(data@[j as int].0.days == d);
                }
            }
            return data[j].1;
        }
        j = j + 1;
    }
    0
}

/// The counts for each of the `n` days from `since`.
pub fn day_counts(data: &Vec<(Date, u32)>, since: Date, n: usize) -> (r: Vec<u32>)
    ensures
        r@.len() == n,
        forall|i: int| 0 <= i < n ==> r@[i] == count_for(data@, since.days + i),
{
    let mut r: Vec<u32> = Vec::new();
    let mut i: usize = 0;
    while i < n
        invariant
            i <= n,
            r@.len() == i,
            forall|k: int| 0 <= k < i ==> r@[k] == count_for(data@, since.days + k),
        decreases n - i,
    {
        r.push(find_count(data, since.days as i128 + i as i128));
        i = i + 1;
    }
    r
}

/// The last entry of `data[..upto]` for the day `since + i`: (created, completed).
pub open spec fn last_entry(data: Seq<(Date, u32, u32)>, since: int, i: int, upto: int) -> Option<(u32, u32)>
    decreases upto,
{
    if upto <= 0 {
        None
    } else if data[upto - 1].0.days - since == i {
        Some((data[upto - 1].1, data[upto - 1].2))
    } else {
        last_entry(data, since, i, upto - 1)
    }
}

pub open spec fn created_on(data: Seq<(Date, u32, u32)>, since: int, i: int) -> u64 {
    match last_entry(data, since, i, data.len() as int) {
        Some(e) => e.0 as u64,
        None => 0,
    }
}

pub open spec fn completed_on(data: Seq<(Date, u32, u32)>, since: int, i: int) -> u64 {
    match last_entry(data, since, i, data.len() as int) {
        Some(e) => e.1 as u64,
        None => 0,
    }
}

/// Todos created and completed on each of the `ndays` days from `since`; where a day
/// is listed more than once the last entry counts, and entries outside are ignored.
pub fn velocity_buckets(data: &Vec<(Date, u32, u32)>, since: Date, ndays: usize) -> (r: (Vec<u64>, Vec<u64>))
    ensures
        r.0@.len() == ndays && r.1@.len() == ndays,
        forall|i: int| 0 <= i < ndays ==> r.0@[i] == created_on(data@, since.days as int, i) && r.1@[i] == completed_on(data@, since.days as int, i),
{
    let mut created: Vec<u64> = Vec::new();
    let mut completed: Vec<u64> = Vec::new();
    let mut k: usize = 0;
    while k < ndays
        invariant
            k <= ndays,
            created@.len() == k && completed@.len() == k,
            forall|i: int| 0 <= i < k ==> created@[i] == 0 && completed@[i] == 0,
        decreases ndays - k,
    {
        created.push(0);
        completed.push(0);
        k = k + 1;
    }
    let mut j: usize = 0;
    while j < data.len()
        invariant
            j <= data@.len(),
            created@.len() == ndays && completed@.len() == ndays,
            forall|i: int| 0 <= i < ndays ==> (match #[trigger] last_entry(data@, since.days as int, i, j as int) {
                Some(e) => created@[i] == e.0 as u64 && completed@[i] == e.1 as u64,
                None => created@[i] == 0 && completed@[i] == 0,
            }),
        decreases data.len() - j,
    {
        let (d, c, done) = data[j];
        let idx: i64 = d.days as i64 - since.days as i64;
        let ghost old_c = created@;
        let ghost old_d = completed@;
        if idx >= 0 && (idx as u64) < (ndays as u64) {
            created.set(idx as usize, c as u64);
            completed.set(idx as usize, done as u64);
        }
        proof {
            assert forall|i: int| 0 <= i < ndays implies (match #[trigger] last_entry(data@, since.days as int, i, j + 1) {
                Some(e) => created@[i] == e.0 as u64 && completed@[i] == e.1 as u64,
                None => created@[i] == 0 && completed@[i] == 0,
            }) by {
                if data@[j as int].0.days - since.days == i {
                    assert(last_entry(data@, since.days as int, i, j + 1) == Some((c, done)));
                } else {
                    assert(last_entry(data@, since.days as int, i, j + 1) == last_entry(data@, since.days as int, i, j as int));
                    assert(created@[i] == old_c[i]);
                    assert(completed@[i] == old_d[i]);
                }
            }
        }
        j = j + 1;
    }
    (created, completed)
}

/// A sparkline shows only as many samples as it is wide: the most recent ones.
pub fn recent_window(v: &Vec<u64>, width: usize) -> (r: Vec<u64>)
    ensures
        v@.len() > width && width > 0 ==> r@ == v@.subrange(v@.len() - width, v@.len() as int),
        !(v@.len() > width && width > 0) ==> r@ == v@,
{
    let n = v.len();
    let lo = if n > width && width > 0 { n - width } else { 0 };
    let mut r: Vec<u64> = Vec::new();
    let mut i = lo;
    while i < n
        invariant
            lo <= i <= n == v@.len(),
            r@ == v@.subrange(lo as int, i as int),
        decreases n - i,
    {
        r.push(v[i]);
        i = i + 1;
        assert(r@ =~= v@.subrange(lo as int, i as int));
    }
    assert(v@.subrange(0, n as int) =~= v@);
    r
}

/// Index of the habit with the longest current streak (the last one among equals,
/// as `Iterator::max_by_key` picks).
pub fn best_streak(streaks: &Vec<u32>) -> (r: Option<usize>)
    ensures
        streaks@.len() == 0 ==> r is None,
        r matches Some(i) ==> {
            &&& i < streaks@.len()
            &&& forall|j: int| 0 <= j < streaks@.len() ==> streaks@[j] <= streaks@[i as int]
            &&& forall|j: int| i < j < streaks@.len() ==> streaks@[j] < streaks@[i as int]
        },
        streaks@.len() > 0 ==> r is Some,
{
    if streaks.len() == 0 {
        return None;
    }
    let mut best: usize = 0;
    let mut i: usize = 1;
    while i < streaks.len()
        invariant
            1 <= i <= streaks@.len(),
            best < i,
            forall|j: int| 0 <= j < i ==> streaks@[j] <= streaks@[best as int],
            forall|j: int| best < j < i ==> streaks@[j] < streaks@[best as int],
        decreases streaks.len() - i,
    {
        if streaks[i] >= streaks[best] {
            best = i;
        }
        i = i + 1;
    }
    Some(best)
}

} // verus!
