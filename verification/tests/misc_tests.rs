use productivo::config::ThemeCfg;
use productivo::date::Date;
use productivo::pet::{blinking, pace_offset, pet_level, progress_bar, stage, Skin};
use productivo::stats::{
    best_streak, day_counts, fmt_hm, recent_window, since_for, spark_chars, trend_arrow, velocity_buckets, week_deltas,
    week_starts, Range, WeekStats,
};
use productivo::theme::{hex, Rgb, Theme};

fn d(s: &str) -> Date {
    Date::parse(s).unwrap()
}

#[test]
fn hex_colors() {
    assert_eq!(hex("#cba6f7"), Some(Rgb { r: 0xcb, g: 0xa6, b: 0xf7 }));
    assert_eq!(hex("#CBA6F7"), Some(Rgb { r: 0xcb, g: 0xa6, b: 0xf7 }));
    assert_eq!(hex("cba6f7"), None);
    assert_eq!(hex("#cba6f"), None);
    assert_eq!(hex("#cba6fg"), None);
    assert_eq!(hex("#ä12345"), None);
    // only hex digits make a colour: a sign is no digit
    assert_eq!(hex("#+f+f+f"), None);
    assert_eq!(hex("#-1-1-1"), None);
    assert_eq!(hex("#0a0B0c"), Some(Rgb { r: 10, g: 11, b: 12 }));
}

#[test]
fn theme_overrides() {
    let t = Theme::from_cfg(&ThemeCfg::default());
    assert_eq!(t, Theme::default());
    let mut cfg = ThemeCfg::default();
    cfg.accent = Some("#010203".into());
    cfg.red = Some("bad".into());
    let t = Theme::from_cfg(&cfg);
    assert_eq!(t.accent, Rgb { r: 1, g: 2, b: 3 });
    assert_eq!(t.red, Theme::default().red);
}

#[test]
fn hours_and_minutes() {
    assert_eq!(fmt_hm(0), "0h 00m");
    assert_eq!(fmt_hm(65), "1h 05m");
    assert_eq!(fmt_hm(600), "10h 00m");
    assert_eq!(fmt_hm(59), "0h 59m");
}

#[test]
fn sparkline_levels() {
    assert_eq!(spark_chars(&vec![0, 1, 2, 3, 4], 4), "▁▂▃▅▇");
    // half a step rounds up
    assert_eq!(spark_chars(&vec![1], 8), "▂");
    // a max of 0 counts as 1, and counts over the max stay at the top
    assert_eq!(spark_chars(&vec![0, 5], 0), "▁▇");
    assert_eq!(spark_chars(&vec![], 3), "");
}

#[test]
fn ranges_and_weeks() {
    assert_eq!(Range::Week.next().next().next(), Range::Week);
    assert_eq!(Range::Year.label(), "year");
    assert_eq!(since_for(Range::Month, d("2026-07-31")), Some(d("2026-07-01")));
    let (this_monday, last_monday) = week_starts(d("2026-07-15")).unwrap();
    assert_eq!(this_monday, d("2026-07-13"));
    assert_eq!(last_monday, d("2026-07-06"));
    let cur = WeekStats { habit_pct: 40, todos_done: 3, focus_min: 90 };
    let prev = WeekStats { habit_pct: 50, todos_done: 3, focus_min: 30 };
    assert_eq!(week_deltas(cur, prev), (-10, 0, 60));
    assert_eq!(trend_arrow(0), ("▲", true));
    assert_eq!(trend_arrow(-1), ("▼", false));
}

#[test]
fn per_day_figures() {
    let since = d("2026-07-09");
    let data = vec![(d("2026-07-10"), 2), (d("2026-07-15"), 4), (d("2026-07-10"), 9)];
    assert_eq!(day_counts(&data, since, 7), vec![0, 2, 0, 0, 0, 0, 4]);
    let v = vec![(d("2026-07-10"), 1, 0), (d("2026-07-20"), 5, 5), (d("2026-07-10"), 3, 2), (d("2026-07-01"), 8, 8)];
    let (created, completed) = velocity_buckets(&v, since, 8);
    assert_eq!(created, vec![0, 3, 0, 0, 0, 0, 0, 0]);
    assert_eq!(completed, vec![0, 2, 0, 0, 0, 0, 0, 0]);
    assert_eq!(recent_window(&vec![1, 2, 3, 4], 2), vec![3, 4]);
    assert_eq!(recent_window(&vec![1, 2], 5), vec![1, 2]);
    assert_eq!(recent_window(&vec![1, 2], 0), vec![1, 2]);
    assert_eq!(best_streak(&vec![3, 7, 7, 1]), Some(2));
    assert_eq!(best_streak(&vec![]), None);
}

#[test]
fn pet_levels() {
    assert_eq!(pet_level(0), (1, 0));
    assert_eq!(pet_level(7), (2, 2));
    assert_eq!(pet_level(12), (3, 2));
    assert_eq!(stage(1), "kitten");
    assert_eq!(stage(3), "cat");
    assert_eq!(stage(9), "chonker");
    assert_eq!(stage(10), "legend");
    assert_eq!(progress_bar(2), "▰▰▱▱▱");
    assert!(blinking(61));
    assert!(!blinking(64));
    assert_eq!(pace_offset(0, 10, true), 0);
    assert_eq!(pace_offset(44, 10, true), 9);
    assert_eq!(pace_offset(0, 0, true), 2);
    // a hungry pet needs twice the frames for the same walk
    assert_eq!(pace_offset(88, 10, false), 9);
    assert_eq!(pace_offset(44, 10, false), 5);
    assert_eq!(Skin::Comet.next(), Skin::Toast);
    assert_eq!(Skin::Toast.next(), Skin::Comet);
    assert_eq!(Skin::Toast.label(), "toast");
}

#[test]
fn dates() {
    let x = d("2026-07-15");
    assert_eq!(x.days, 739812);
    assert_eq!(x.to_text(), "2026-07-15");
    assert_eq!(x.ymd(), (2026, 7, 15));
    assert_eq!(x.month_start(), d("2026-07-01"));
    assert_eq!(d("2026-12-09").next_month_start(), Some(d("2027-01-01")));
    assert_eq!(Date::from_ymd(2026, 2, 29), None);
    assert_eq!(Date::parse("2026-7-5"), Some(d("2026-07-05")));
    assert_eq!(Date::parse("July"), None);
    assert_eq!(Date::from_days(1).unwrap().ymd(), (1, 1, 1));
    assert_eq!(Date::from_days(i32::MAX), None);
    assert!(d("2026-07-14").before(x));
}
