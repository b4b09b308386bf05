use chrono::{Datelike, NaiveDate};
use crate::text::decimal;
use vstd::prelude::*;

verus! {

/// Day number (counted from 0001-01-01 = 1) of the earliest date chrono represents,
/// January 1 of the year -262143.
pub const MIN_DAYS: i32 = -95746129;

/// Day number of the latest date chrono represents, December 31 of the year 262142.
pub const MAX_DAYS: i32 = 95745399;

/// Earliest year chrono represents.
pub const MIN_YEAR: i32 = -262143;

/// Latest year chrono represents.
pub const MAX_YEAR: i32 = 262142;

pub open spec fn in_range(days: int) -> bool {
    MIN_DAYS <= days <= MAX_DAYS
}

/// Day of the week of the day numbered `days`, Monday = 0 through Sunday = 6.
/// Day 1 (0001-01-01) is a Monday and the week repeats every seven days.
pub open spec fn weekday_index(days: int) -> int {
    (days - 1) % 7
}

/// (year, month, day) of the day numbered `days`, as chrono computes it.
pub uninterp spec fn chrono_ymd(days: int) -> (int, int, int);

/// A leap year of the proleptic Gregorian calendar.
pub open spec fn is_leap(y: int) -> bool {
    y % 4 == 0 && (y % 100 != 0 || y % 400 == 0)
}

pub open spec fn days_in_month(y: int, m: int) -> int {
    if m == 2 {
        if is_leap(y) { 29 } else { 28 }
    } else if m == 4 || m == 6 || m == 9 || m == 11 {
        30
    } else {
        31
    }
}

/// (year, month, day) is a calendar date within chrono's years.
pub open spec fn valid_ymd(y: int, m: int, d: int) -> bool {
    MIN_YEAR <= y <= MAX_YEAR && 1 <= m <= 12 && 1 <= d <= days_in_month(y, m)
}

/// Day number of the calendar date (year, month, day), or none where chrono has no such date.
pub uninterp spec fn chrono_from_ymd(year: int, month: int, day: int) -> Option<int>;

/// Day number of the date that chrono reads from `s` (`%Y-%m-%d`), or none.
pub uninterp spec fn chrono_parse_date(s: Seq<char>) -> Option<int>;

/// `s` with zeros in front, to at least `width` characters.
pub open spec fn zero_pad(s: Seq<char>, width: nat) -> Seq<char>
    decreases width,
{
    if s.len() >= width || width == 0 { s } else { seq!['0'] + zero_pad(s, (width - 1) as nat) }
}

/// The year as `%Y` writes it: four digits within 0..=9999, otherwise a sign and at
/// least four digits.
pub open spec fn year_text(y: int) -> Seq<char> {
    if 0 <= y <= 9999 {
        zero_pad(decimal(y as nat), 4)
    } else if y > 9999 {
        seq!['+'] + decimal(y as nat)
    } else {
        seq!['-'] + zero_pad(decimal((-y) as nat), 4)
    }
}

/// The text `%Y-%m-%d` of the day numbered `days`, as chrono's `Display` writes it.
pub open spec fn format_date(days: int) -> Seq<char> {
    let (y, m, d) = chrono_ymd(days);
    year_text(y) + seq!['-'] + zero_pad(decimal(m as nat), 2) + seq!['-'] + zero_pad(decimal(d as nat), 2)
}

/// A calendar date, held as its day number counted from 0001-01-01 (day 1),
/// the number that `chrono::NaiveDate::num_days_from_ce` gives.
#[derive(Clone, Copy, Debug, PartialEq, Eq, Structural)]
pub struct Date {
    pub days: i32,
}

impl Date {
    pub open spec fn wf(self) -> bool {
        in_range(self.days as int)
    }

    /// The date with the given day number, where chrono represents it.
    pub fn from_days(days: i32) -> (r: Option<Date>)
        ensures
            r is Some <==> in_range(days as int),
            r matches Some(d) ==> d.days == days,
    {
        if MIN_DAYS <= days && days <= MAX_DAYS {
            Some(Date { days })
        } else {
            None
        }
    }

    /// The date `n` days later (earlier for negative `n`), where chrono represents it.
    pub fn add_days(self, n: i64) -> (r: Option<Date>)
        requires
            self.wf(),
        ensures
            r is Some <==> in_range(self.days + n),
            r matches Some(d) ==> d.days == self.days + n,
    {
        if n < (MIN_DAYS as i64) - (self.days as i64) || n > (MAX_DAYS as i64) - (self.days as i64) {
            None
        } else {
            Some(Date { days: (self.days as i64 + n) as i32 })
        }
    }

    /// The day before, where chrono represents it.
    pub fn pred(self) -> (r: Option<Date>)
        requires
            self.wf(),
        ensures
            r is Some <==> self.days > MIN_DAYS,
            r matches Some(d) ==> d.days == self.days - 1,
    {
        self.add_days(-1)
    }

    pub fn before(self, other: Date) -> (r: bool)
        ensures
            r == (self.days < other.days),
    {
        self.days < other.days
    }

    /// Day of the week, Monday = 0 through Sunday = 6.
    pub fn weekday(self) -> (r: u32)
        requires
            self.wf(),
        ensures
            r as int == weekday_index(self.days as int),
            r < 7,
    {
        chrono_weekday(self.days)
    }

    /// (year, month, day) of the date.
    pub fn ymd(self) -> (r: (i32, u32, u32))
        requires
            self.wf(),
        ensures
            (r.0 as int, r.1 as int, r.2 as int) == chrono_ymd(self.days as int),
            valid_ymd(r.0 as int, r.1 as int, r.2 as int),
    {
        chrono_ymd_of(self.days)
    }

    /// The date with the given year, month and day, where chrono has it.
    pub fn from_ymd(year: i32, month: u32, day: u32) -> (r: Option<Date>)
        ensures
            r matches Some(d) ==> d.wf() && Some(d.days as int) == chrono_from_ymd(year as int, month as int, day as int),
            r is None ==> chrono_from_ymd(year as int, month as int, day as int) is None,
            r is Some <==> valid_ymd(year as int, month as int, day as int),
    {
        match chrono_days_from_ymd(year, month, day) {
            Some(days) => Some(Date { days }),
            None => None,
        }
    }

    /// Reads a date written `YYYY-MM-DD`.
    pub fn parse(s: &str) -> (r: Option<Date>)
        ensures
            r matches Some(d) ==> d.wf() && chrono_parse_date(s@) == Some(d.days as int),
            r is None ==> chrono_parse_date(s@) is None,
    {
        match chrono_parse(s) {
            Some(days) => Some(Date { days }),
            None => None,
        }
    }

    /// The date written `YYYY-MM-DD`.
    pub fn to_text(self) -> (r: String)
        requires
            self.wf(),
        ensures
            r@ == format_date(self.days as int),
    {
        chrono_format(self.days)
    }

    /// The first day of the date's month.
    pub fn month_start(self) -> (r: Date)
        requires
            self.wf(),
        ensures
            r.wf(),
            Some(r.days as int) == chrono_from_ymd(chrono_ymd(self.days as int).0, chrono_ymd(self.days as int).1, 1),
    {
        let (y, m, _) = self.ymd();
        Date::from_ymd(y, m, 1).unwrap()
    }

    /// The first day of the month after the date's month, where chrono has it.
    pub fn next_month_start(self) -> (r: Option<Date>)
        requires
            self.wf(),
        ensures
            ({
                let (y, m, _) = chrono_ymd(self.days as int);
                let target = if m == 12 { chrono_from_ymd(y + 1, 1, 1) } else { chrono_from_ymd(y, m + 1, 1) };
                &&& r matches Some(d) ==> d.wf() && target == Some(d.days as int)
                &&& r is None ==> target is None
            }),
    {
        let (y, m, _) = self.ymd();
        if m == 12 {
            Date::from_ymd(y + 1, 1, 1)
        } else {
            Date::from_ymd(y, m + 1, 1)
        }
    }
}

/// `chrono::NaiveDate::weekday`, as the number of days from Monday, of the date with
/// the given day number. The contract states that consecutive days have consecutive
/// weekdays and that day 1 (0001-01-01) is a Monday.
#[verifier::external_body]
fn chrono_weekday(days: i32) -> (r: u32)
    requires
        in_range(days as int),
    ensures
        r as int == weekday_index(days as int),
{
    NaiveDate::from_num_days_from_ce_opt(days).unwrap().weekday().num_days_from_monday()
}

/// `chrono::Datelike::{year, month, day}` of the date with the given day number.
/// The contract names the result and states that it is a valid calendar date.
#[verifier::external_body]
fn chrono_ymd_of(days: i32) -> (r: (i32, u32, u32))
    requires
        in_range(days as int),
    ensures
        (r.0 as int, r.1 as int, r.2 as int) == chrono_ymd(days as int),
        valid_ymd(r.0 as int, r.1 as int, r.2 as int),
{
    let d = NaiveDate::from_num_days_from_ce_opt(days).unwrap();
    (d.year(), d.month(), d.day())
}

/// `chrono::NaiveDate::from_ymd_opt`, as a day number. The contract names the result,
/// states that a date it gives is in range and has those parts, and that it gives one
/// exactly for the valid calendar dates of chrono's years.
#[verifier::external_body]
fn chrono_days_from_ymd(year: i32, month: u32, day: u32) -> (r: Option<i32>)
    ensures
        r matches Some(x) ==> in_range(x as int) && chrono_ymd(x as int) == (year as int, month as int, day as int),
        r matches Some(x) ==> chrono_from_ymd(year as int, month as int, day as int) == Some(x as int),
        r is None ==> chrono_from_ymd(year as int, month as int, day as int) is None,
        r is Some <==> valid_ymd(year as int, month as int, day as int),
{
    NaiveDate::from_ymd_opt(year, month, day).map(|d| d.num_days_from_ce())
}

/// `str::parse::<chrono::NaiveDate>` (format `%Y-%m-%d`), as a day number. The contract
/// names the result and states that a parsed date is in chrono's range.
#[verifier::external_body]
fn chrono_parse(s: &str) -> (r: Option<i32>)
    ensures
        r matches Some(x) ==> in_range(x as int) && chrono_parse_date(s@) == Some(x as int),
        r is None ==> chrono_parse_date(s@) is None,
{
    s.parse::<NaiveDate>().ok().map(|d| d.num_days_from_ce())
}

/// `chrono::NaiveDate`'s `Display` (`%Y-%m-%d`) of the date with the given day number:
/// the year (zero-padded to four digits, signed outside 0..=9999), the two-digit month
/// and the two-digit day, joined by `-`.
#[verifier::external_body]
fn chrono_format(days: i32) -> (r: String)
    requires
        in_range(days as int),
    ensures
        r@ == format_date(days as int),
{
    NaiveDate::from_num_days_from_ce_opt(days).unwrap().to_string()
}

} // verus!
