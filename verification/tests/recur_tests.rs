use productivo::date::Date;
use productivo::recur::{next_after, next_due, parse, Recur, Weekday};

fn d(s: &str) -> Date {
    Date::parse(s).unwrap()
}

#[test]
fn parses_all_forms() {
    assert_eq!(parse("daily"), Some(Recur::Daily));
    assert_eq!(
        parse("weekly:mon,thu"),
        Some(Recur::Weekly(vec![Weekday::Mon, Weekday::Thu]))
    );
    assert_eq!(parse("every:3d"), Some(Recur::EveryDays(3)));
}

#[test]
fn rejects_garbage() {
    for bad in [
        "",
        "weekly:",
        "weekly:funday",
        "every:0d",
        "every:3",
        "monthly",
    ] {
        assert_eq!(parse(bad), None, "should reject {bad:?}");
    }
}

#[test]
fn next_after_daily_and_every() {
    assert_eq!(next_after(&Recur::Daily, d("2026-07-15")), d("2026-07-16"));
    assert_eq!(
        next_after(&Recur::EveryDays(3), d("2026-07-15")),
        d("2026-07-18")
    );
}

#[test]
fn next_after_weekly_picks_next_listed_weekday() {
    // 2026-07-15 is a Wednesday
    let rule = Recur::Weekly(vec![Weekday::Mon, Weekday::Thu]);
    assert_eq!(next_after(&rule, d("2026-07-15")), d("2026-07-16")); // Thu
    assert_eq!(next_after(&rule, d("2026-07-16")), d("2026-07-20")); // next Mon
    // completing on a listed day moves to the NEXT occurrence, not the same day
    assert_eq!(next_after(&rule, d("2026-07-20")), d("2026-07-23"));
}

#[test]
fn parses_more_forms() {
    assert_eq!(
        parse("weekly:sun,sat,fri,wed,tue"),
        Some(Recur::Weekly(vec![Weekday::Sun, Weekday::Sat, Weekday::Fri, Weekday::Wed, Weekday::Tue]))
    );
    assert_eq!(parse("every:+12d"), Some(Recur::EveryDays(12)));
    assert_eq!(parse("every:4294967295d"), Some(Recur::EveryDays(4294967295)));
    assert_eq!(parse("every:4294967296d"), None);
    assert_eq!(parse("weekly:mon,"), None);
    assert_eq!(parse("weekly:Mon"), None);
    assert_eq!(parse("Daily"), None);
    assert_eq!(parse(" daily"), None);
    assert_eq!(parse("every:-1d"), None);
    assert_eq!(parse("every:d"), None);
}

#[test]
fn weekly_repeats_within_a_week() {
    // a single weekday comes back after exactly seven days
    let rule = Recur::Weekly(vec![Weekday::Wed]);
    assert_eq!(next_after(&rule, d("2026-07-15")), d("2026-07-22"));
    assert_eq!(d("2026-07-15").weekday(), 2);
    assert_eq!(d("2026-07-20").weekday(), 0);
}

#[test]
fn next_due_from_rule_text() {
    assert_eq!(next_due("every:10d", d("2026-07-15")), Some(d("2026-07-25")));
    assert_eq!(next_due("weekly:fri", d("2026-07-15")), Some(d("2026-07-17")));
    assert_eq!(next_due("daily", d("2026-12-31")), Some(d("2027-01-01")));
    assert_eq!(next_due("sometimes", d("2026-07-15")), None);
}

#[test]
fn every_step_reads_back() {
    for n in [1u32, 3, 10, 365, 4294967295] {
        assert_eq!(parse(&format!("every:{n}d")), Some(Recur::EveryDays(n)));
    }
    assert_eq!(parse("every:4294967296d"), None);
}
