use crate::date::{in_range, weekday_index, Date};
use crate::text::{chars_of, decimal, lemma_decimal_reads_back, parse_u32, split, split_on, std_parse_u32};
use vstd::prelude::*;

verus! {

/// A day of the week.
#[derive(Clone, Copy, Debug, PartialEq, Eq, Structural)]
pub enum Weekday {
    Mon,
    Tue,
    Wed,
    Thu,
    Fri,
    Sat,
    Sun,
}

impl Weekday {
    /// Days from Monday.
    pub open spec fn num(self) -> int {
        match self {
            Weekday::Mon => 0,
            Weekday::Tue => 1,
            Weekday::Wed => 2,
            Weekday::Thu => 3,
            Weekday::Fri => 4,
            Weekday::Sat => 5,
            Weekday::Sun => 6,
        }
    }

    pub fn num_days_from_monday(self) -> (r: u32)
        ensures
            r as int == self.num(),
    {
        match self {
            Weekday::Mon => 0,
            Weekday::Tue => 1,
            Weekday::Wed => 2,
            Weekday::Thu => 3,
            Weekday::Fri => 4,
            Weekday::Sat => 5,
            Weekday::Sun => 6,
        }
    }
}

/// The weekday of the day numbered `days`.
pub open spec fn weekday_of(days: int) -> Weekday {
    let i = weekday_index(days);
    if i == 0 {
        Weekday::Mon
    } else if i == 1 {
        Weekday::Tue
    } else if i == 2 {
        Weekday::Wed
    } else if i == 3 {
        Weekday::Thu
    } else if i == 4 {
        Weekday::Fri
    } else if i == 5 {
        Weekday::Sat
    } else {
        Weekday::Sun
    }
}

/// A recurrence rule of a todo.
#[derive(Clone, Debug, PartialEq, Eq)]
pub enum Recur {
    Daily,
    Weekly(Vec<Weekday>),
    EveryDays(u32),
}

/// What a recurrence rule means, with its weekdays as a sequence.
pub enum RecurModel {
    Daily,
    Weekly(Seq<Weekday>),
    EveryDays(nat),
}

impl Recur {
    pub open spec fn model(self) -> RecurModel {
        match self {
            Recur::Daily => RecurModel::Daily,
            Recur::Weekly(v) => RecurModel::Weekly(v@),
            Recur::EveryDays(n) => RecurModel::EveryDays(n as nat),
        }
    }
}

/// The weekday that a three-letter lower-case name stands for.
pub open spec fn weekday_named(t: Seq<char>) -> Option<Weekday> {
    if t == seq!['m', 'o', 'n'] {
        Some(Weekday::Mon)
    } else if t == seq!['t', 'u', 'e'] {
        Some(Weekday::Tue)
    } else if t == seq!['w', 'e', 'd'] {
        Some(Weekday::Wed)
    } else if t == seq!['t', 'h', 'u'] {
        Some(Weekday::Thu)
    } else if t == seq!['f', 'r', 'i'] {
        Some(Weekday::Fri)
    } else if t == seq!['s', 'a', 't'] {
        Some(Weekday::Sat)
    } else if t == seq!['s', 'u', 'n'] {
        Some(Weekday::Sun)
    } else {
        None
    }
}

/// The weekdays that all the names stand for, in order, or none if one of them is no name.
pub open spec fn weekdays_named(ts: Seq<Seq<char>>) -> Option<Seq<Weekday>>
    decreases ts.len(),
{
    if ts.len() == 0 {
        Some(Seq::empty())
    } else {
        match (weekday_named(ts[0]), weekdays_named(ts.drop_first())) {
            (Some(w), Some(ws)) => Some(seq![w] + ws),
            _ => None,
        }
    }
}

pub open spec fn daily_text() -> Seq<char> {
    seq!['d', 'a', 'i', 'l', 'y']
}

pub open spec fn weekly_prefix() -> Seq<char> {
    seq!['w', 'e', 'e', 'k', 'l', 'y', ':']
}

pub open spec fn every_prefix() -> Seq<char> {
    seq!['e', 'v', 'e', 'r', 'y', ':']
}

/// The rule that the text `s` writes: `daily`, `weekly:` and a comma-separated list of
/// weekday names, or `every:` and a positive number of days followed by `d`.
pub open spec fn parse_spec(s: Seq<char>) -> Option<RecurModel> {
    if s == daily_text() {
        Some(RecurModel::Daily)
    } else if s.len() >= 7 && s.take(7) == weekly_prefix() {
        let days = s.skip(7);
        if days.len() == 0 {
            None
        } else {
            match weekdays_named(split_on(days, ',')) {
                Some(ws) => Some(RecurModel::Weekly(ws)),
                None => None,
            }
        }
    } else if s.len() >= 6 && s.take(6) == every_prefix() {
        let n = s.skip(6);
        if n.len() > 0 && n.last() == 'd' {
            match std_parse_u32(n.drop_last()) {
                Some(k) => if k > 0 { Some(RecurModel::EveryDays(k)) } else { None },
                None => None,
            }
        } else {
            None
        }
    } else {
        None
    }
}

/// A rule that always has a next occurrence: a positive step, or at least one weekday.
pub open spec fn valid_model(m: RecurModel) -> bool {
    match m {
        RecurModel::Daily => true,
        RecurModel::Weekly(ws) => ws.len() > 0,
        RecurModel::EveryDays(n) => n > 0,
    }
}

/// The first day after `from + k - 1` (looking at most up to `from + 7`) whose weekday is listed.
pub open spec fn first_listed_from(ws: Seq<Weekday>, from: int, k: int) -> int
    decreases 8 - k,
{
    if k >= 8 {
        from + 8
    } else if ws.contains(weekday_of(from + k)) {
        from + k
    } else {
        first_listed_from(ws, from, k + 1)
    }
}

/// The day number of the next occurrence of the rule strictly after the day `from`.
pub open spec fn next_after_spec(m: RecurModel, from: int) -> int {
    match m {
        RecurModel::Daily => from + 1,
        RecurModel::EveryDays(n) => from + n,
        RecurModel::Weekly(ws) => first_listed_from(ws, from, 1),
    }
}

fn weekday_name(t: &Vec<char>) -> (r: Option<Weekday>)
    ensures
        r == weekday_named(t@),
{
    if t.len() != 3 {
        return None;
    }
    let (a, b, c) = (t[0], t[1], t[2]);
    proof {
        assert(t@ =~= seq![a, b, c]);
    }
    if a == 'm' && b == 'o' && c == 'n' {
        Some(Weekday::Mon)
    } else if a == 't' && b == 'u' && c == 'e' {
        Some(Weekday::Tue)
    } else if a == 'w' && b == 'e' && c == 'd' {
        Some(Weekday::Wed)
    } else if a == 't' && b == 'h' && c == 'u' {
        Some(Weekday::Thu)
    } else if a == 'f' && b == 'r' && c == 'i' {
        Some(Weekday::Fri)
    } else if a == 's' && b == 'a' && c == 't' {
        Some(Weekday::Sat)
    } else if a == 's' && b == 'u' && c == 'n' {
        Some(Weekday::Sun)
    } else {
        None
    }
}

proof fn lemma_weekdays_named_concat(a: Seq<Seq<char>>, b: Seq<Seq<char>>)
    ensures
        weekdays_named(a + b) == (match (weekdays_named(a), weekdays_named(b)) {
            (Some(x), Some(y)) => Some(x + y),
            _ => None,
        }),
    decreases a.len(),
{
    if a.len() == 0 {
        assert(a + b =~= b);
        assert(Seq::<Weekday>::empty() + weekdays_named(b).unwrap_or(Seq::empty()) =~= weekdays_named(b).unwrap_or(Seq::empty()));
    } else {
        lemma_weekdays_named_concat(a.drop_first(), b);
        assert((a + b).drop_first() =~= a.drop_first() + b);
        assert((a + b)[0] == a[0]);
        match (weekday_named(a[0]), weekdays_named(a.drop_first()), weekdays_named(b)) {
            (Some(w), Some(x), Some(y)) => {
                assert(seq![w] + (x + y) =~= (seq![w] + x) + y);
            },
            _ => {},
        }
    }
}

fn weekdays_of_names(ts: &Vec<Vec<char>>) -> (r: Option<Vec<Weekday>>)
    ensures
        r matches Some(v) ==> weekdays_named(ts@.map_values(|x: Vec<char>| x@)) == Some(v@),
        r is None ==> weekdays_named(ts@.map_values(|x: Vec<char>| x@)) is None,
{
    let ghost names = ts@.map_values(|x: Vec<char>| x@);
    let mut out: Vec<Weekday> = Vec::new();
    let mut i: usize = 0;
    while i < ts.len()
        invariant
            i <= ts.len(),
            names == ts@.map_values(|x: Vec<char>| x@),
            weekdays_named(names.take(i as int)) == Some(out@),
        decreases ts.len() - i,
    {
        let w = weekday_name(&ts[i]);
        proof {
            assert(names.take(i + 1) =~= names.take(i as int) + seq![names[i as int]]);
            lemma_weekdays_named_concat(names.take(i as int), seq![names[i as int]]);
            assert(seq![names[i as int]].drop_first() =~= Seq::<Seq<char>>::empty());
        }
        match w {
            Some(w) => {
                proof {
                    assert(weekdays_named(Seq::<Seq<char>>::empty()) == Some(Seq::<Weekday>::empty()));
                    assert(names[i as int] == ts@[i as int]@);
                    assert(seq![w] + Seq::<Weekday>::empty() =~= seq![w]);
                    assert(weekdays_named(seq![names[i as int]]) == Some(seq![w]));
                    assert(out@.push(w) =~= out@ + seq![w]);
                }
                out.push(w);
            },
            None => {
                proof {
                    assert(names[i as int] == ts@[i as int]@);
                    assert(names =~= names.take(i + 1) + names.skip(i + 1));
                    lemma_weekdays_named_concat(names.take(i + 1), names.skip(i + 1));
                }
                return None;
            },
        }
        i = i + 1;
    }
    assert(names.take(i as int) =~= names);
    Some(out)
}

/// Reads a recurrence rule: `daily`, `weekly:mon,thu` or `every:3d`.
pub fn parse(s: &str) -> (r: Option<Recur>)
    ensures
        match r {
            Some(rule) => parse_spec(s@) == Some(rule.model()),
            None => parse_spec(s@) is None,
        },
{
    let v = chars_of(s);
    let daily = vec!['d', 'a', 'i', 'l', 'y'];
    let weekly = vec!['w', 'e', 'e', 'k', 'l', 'y', ':'];
    let every = vec!['e', 'v', 'e', 'r', 'y', ':'];
    assert(daily@ =~= daily_text());
    assert(weekly@ =~= weekly_prefix());
    assert(every@ =~= every_prefix());
    if crate::text::same_chars(&v, &daily) {
        return Some(Recur::Daily);
    }
    if crate::text::starts_with(&v, &weekly) {
        if v.len() == 7 {
            return None;
        }
        let days = crate::text::slice_chars(&v, 7, v.len());
        assert(days@ =~= v@.skip(7));
        let parts = split(&days, ',');
        return match weekdays_of_names(&parts) {
            Some(ws) => Some(Recur::Weekly(ws)),
            None => None,
        };
    }
    if crate::text::starts_with(&v, &every) {
        let n = v.len();
        if n > 6 && v[n - 1] == 'd' {
            assert(v@.skip(6).drop_last() =~= v@.subrange(6, n - 1));
            match parse_u32(&v, 6, n - 1) {
                Some(k) => {
                    if k > 0 {
                        return Some(Recur::EveryDays(k));
                    }
                },
                None => {},
            }
        }
    }
    None
}

proof fn lemma_listed_within_week(ws: Seq<Weekday>, from: int, k: int)
    requires
        ws.len() > 0,
        1 <= k <= 7,
        forall|j: int| 1 <= j < k ==> !ws.contains(#[trigger] weekday_of(from + j)),
    ensures
        exists|j: int| k <= j <= 7 && ws.contains(#[trigger] weekday_of(from + j)),
{
    let w = ws[0];
    assert(ws.contains(w));
    let t = (w.num() + 1 - from) % 7;
    let j = if t == 0 { 7 } else { t };
    assert(weekday_index(from + j) == w.num());
    assert(weekday_of(from + j) == w);
    assert(1 <= j <= 7);
    if j < k {
        assert(!ws.contains(weekday_of(from + j)));
    }
}

proof fn lemma_first_listed(ws: Seq<Weekday>, from: int, k: int)
    requires
        1 <= k <= 7,
        exists|j: int| k <= j <= 7 && ws.contains(#[trigger] weekday_of(from + j)),
    ensures
        k <= first_listed_from(ws, from, k) - from <= 7,
        ws.contains(weekday_of(first_listed_from(ws, from, k))),
        forall|d: int| from + k <= d < first_listed_from(ws, from, k) ==> !ws.contains(#[trigger] weekday_of(d)),
    decreases 8 - k,
{
    if !ws.contains(weekday_of(from + k)) {
        let j = choose|j: int| k <= j <= 7 && ws.contains(#[trigger] weekday_of(from + j));
        assert(j != k);
        lemma_first_listed(ws, from, k + 1);
        assert forall|d: int| from + k <= d < first_listed_from(ws, from, k) implies !ws.contains(#[trigger] weekday_of(d)) by {
            if d != from + k {
                assert(from + k + 1 <= d);
            }
        }
    }
}

fn contains_weekday(ws: &Vec<Weekday>, n: u32) -> (r: bool)
    requires
        n < 7,
    ensures
        r == exists|i: int| 0 <= i < ws@.len() && (#[trigger] ws@[i]).num() == n,
{
    let mut i: usize = 0;
    while i < ws.len()
        invariant
            i <= ws.len(),
            forall|j: int| 0 <= j < i ==> (#[trigger] ws@[j]).num() != n,
        decreases ws.len() - i,
    {
        if ws[i].num_days_from_monday() == n {
            return true;
        }
        i = i + 1;
    }
    false
}

proof fn lemma_contains_num(ws: Seq<Weekday>, days: int)
    ensures
        ws.contains(weekday_of(days)) == exists|i: int| 0 <= i < ws.len() && (#[trigger] ws[i]).num() == weekday_index(days),
{
    let w = weekday_of(days);
    assert(w.num() == weekday_index(days));
    if ws.contains(w) {
        let i = choose|i: int| 0 <= i < ws.len() && ws[i] == w;
        assert(ws[i].num() == weekday_index(days));
    }
    if exists|i: int| 0 <= i < ws.len() && (#[trigger] ws[i]).num() == weekday_index(days) {
        let i = choose|i: int| 0 <= i < ws.len() && (#[trigger] ws[i]).num() == weekday_index(days);
        assert(ws[i] == w);
    }
}

/// The next occurrence of `rule` strictly after the completion day `from`. Weekly rules
/// move to the first later day whose weekday is listed.
pub fn next_after(rule: &Recur, from: Date) -> (r: Date)
    requires
        from.wf(),
        valid_model(rule.model()),
        in_range(next_after_spec(rule.model(), from.days as int)),
    ensures
        r.wf(),
        r.days == next_after_spec(rule.model(), from.days as int),
        r.days > from.days,
        rule matches Recur::Weekly(ws) ==> {
            &&& r.days <= from.days + 7
            &&& ws@.contains(weekday_of(r.days as int))
            &&& forall|d: int| from.days < d < r.days ==> !ws@.contains(#[trigger] weekday_of(d))
        },
{
    match rule {
        Recur::Daily => from.add_days(1).unwrap(),
        Recur::EveryDays(n) => from.add_days(*n as i64).unwrap(),
        Recur::Weekly(ws) => {
            proof {
                lemma_listed_within_week(ws@, from.days as int, 1);
                lemma_first_listed(ws@, from.days as int, 1);
            }
            let ghost target = first_listed_from(ws@, from.days as int, 1);
            let mut d = from.add_days(1).unwrap();
            let mut wd = d.weekday();
            proof {
                lemma_contains_num(ws@, d.days as int);
            }
            while !contains_weekday(ws, wd)
                invariant
                    d.wf(),
                    from.days < d.days <= target,
                    wd as int == weekday_index(d.days as int),
                    target == first_listed_from(ws@, from.days as int, 1),
                    in_range(target),
                    ws@.contains(weekday_of(target)),
                    forall|x: int| from.days < x < target ==> !ws@.contains(#[trigger] weekday_of(x)),
                    ws@.contains(weekday_of(d.days as int)) == exists|i: int| 0 <= i < ws@.len() && (#[trigger] ws@[i]).num() == wd,
                decreases target - d.days,
            {
                assert(d.days != target);
                d = d.add_days(1).unwrap();
                wd = d.weekday();
                proof {
                    lemma_contains_num(ws@, d.days as int);
                }
            }
            d
        },
    }
}

/// Parsed rules always have a next occurrence: the step of `every:` is positive and a
/// `weekly:` list names at least one day.
pub proof fn lemma_parsed_rules_are_valid(s: Seq<char>)
    ensures
        parse_spec(s) matches Some(m) ==> valid_model(m),
{
    if s.len() >= 7 && s.take(7) == weekly_prefix() && s != daily_text() {
        let days = s.skip(7);
        if days.len() > 0 {
            crate::text::lemma_split_len(days, ',');
            let parts = split_on(days, ',');
            if weekdays_named(parts) is Some {
                assert(parts =~= seq![parts[0]] + parts.drop_first());
                lemma_weekdays_named_concat(seq![parts[0]], parts.drop_first());
                assert(seq![parts[0]].drop_first() =~= Seq::<Seq<char>>::empty());
            }
        }
    }
}

/// The next occurrence of a valid rule is strictly after the completion day, and a
/// weekly rule's next occurrence comes within a week.
pub proof fn lemma_next_after_is_later(m: RecurModel, from: int)
    requires
        valid_model(m),
    ensures
        next_after_spec(m, from) > from,
        m matches RecurModel::Weekly(ws) ==> next_after_spec(m, from) <= from + 7,
{
    if let RecurModel::Weekly(ws) = m {
        lemma_listed_within_week(ws, from, 1);
        lemma_first_listed(ws, from, 1);
    }
}

/// The due date of the occurrence that completing a todo with the rule text `rule`
/// on `today` schedules: none when the text is no rule or the date is past chrono's range.
pub fn next_due(rule: &str, today: Date) -> (r: Option<Date>)
    requires
        today.wf(),
    ensures
        match parse_spec(rule@) {
            None => r is None,
            Some(m) => {
                let t = next_after_spec(m, today.days as int);
                &&& in_range(t) ==> (r matches Some(d) && d.days == t && d.wf())
                &&& !in_range(t) ==> r is None
            },
        },
{
    match parse(rule) {
        None => None,
        Some(parsed) => {
            proof {
                lemma_parsed_rules_are_valid(rule@);
            }
            let limit: i64 = crate::date::MAX_DAYS as i64 - today.days as i64;
            let fits = match &parsed {
                Recur::Daily => limit >= 1,
                Recur::EveryDays(n) => *n as i64 <= limit,
                Recur::Weekly(_) => {
                    proof {
                        lemma_next_after_is_later(parsed.model(), today.days as int);
                    }
                    if limit >= 7 {
                        true
                    } else {
                        return weekly_near_end(&parsed, today);
                    }
                },
            };
            if fits {
                Some(next_after(&parsed, today))
            } else {
                None
            }
        },
    }
}

fn weekly_near_end(rule: &Recur, today: Date) -> (r: Option<Date>)
    requires
        today.wf(),
        rule is Weekly,
        valid_model(rule.model()),
    ensures
        ({
            let t = next_after_spec(rule.model(), today.days as int);
            &&& in_range(t) ==> (r matches Some(d) && d.days == t && d.wf())
            &&& !in_range(t) ==> r is None
        }),
{
    let ws = match rule {
        Recur::Weekly(ws) => ws,
        _ => { return None; },
    };
    assert(rule.model() == RecurModel::Weekly(ws@));
    proof {
        lemma_listed_within_week(ws@, today.days as int, 1);
        lemma_first_listed(ws@, today.days as int, 1);
    }
    let ghost t = first_listed_from(ws@, today.days as int, 1);
    let mut k: i64 = 1;
    while k <= 7
        invariant
            1 <= k <= 8,
            today.wf(),
            t == first_listed_from(ws@, today.days as int, 1),
            t == next_after_spec(rule.model(), today.days as int),
            today.days + 1 <= t <= today.days + 7,
            ws@.contains(weekday_of(t)),
            forall|x: int| today.days < x < t ==> !ws@.contains(#[trigger] weekday_of(x)),
            today.days + k <= t,
        decreases 8 - k,
    {
        match today.add_days(k) {
            None => {
                return None;
            },
            Some(d) => {
                let wd = d.weekday();
                proof {
                    lemma_contains_num(ws@, d.days as int);
                }
                if contains_weekday(ws, wd) {
                    assert(d.days == t);
                    return Some(d);
                }
            },
        }
        k = k + 1;
    }
    None
}

/// A step written as `every:{n}d` reads back as that step, for every positive `n` that
/// fits in a `u32`.
pub proof fn lemma_every_reads_back(n: nat)
    requires
        1 <= n <= u32::MAX,
    ensures
        parse_spec(every_prefix() + decimal(n) + seq!['d']) == Some(RecurModel::EveryDays(n)),
{
    let s = every_prefix() + decimal(n) + seq!['d'];
    lemma_decimal_reads_back(n);
    assert(s[0] == 'e');
    assert(s != daily_text());
    assert(s.take(7)[0] != weekly_prefix()[0]);
    assert(s.take(6) =~= every_prefix());
    let rest = s.skip(6);
    assert(rest =~= decimal(n) + seq!['d']);
    assert(rest.drop_last() =~= decimal(n));
    assert(decimal(n)[0] != '+');
}

} // verus!
