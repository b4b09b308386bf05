use chrono::{Duration, TimeZone, Utc};
use productivo::pomodoro::{digit_index, mmss, ActiveSession, Kind, PomodoroState};

fn ms(d: Duration) -> i64 {
    d.num_milliseconds()
}

#[test]
fn remaining_counts_down_and_freezes_while_paused() {
    let t0 = Utc.with_ymd_and_hms(2026, 7, 15, 10, 0, 0).unwrap().timestamp_millis();
    let mut s = ActiveSession {
        db_id: 1, kind: Kind::Focus, todo_title: None,
        started_at: t0, duration: ms(Duration::minutes(25)), paused_at: None,
    };
    assert_eq!(s.remaining(t0 + ms(Duration::minutes(10))), ms(Duration::minutes(15)));
    s.paused_at = Some(t0 + ms(Duration::minutes(10)));
    // clock advances, remaining doesn't
    assert_eq!(s.remaining(t0 + ms(Duration::minutes(20))), ms(Duration::minutes(15)));
}

#[test]
fn resume_shifts_started_at_so_no_time_is_lost() {
    let t0 = Utc.with_ymd_and_hms(2026, 7, 15, 10, 0, 0).unwrap().timestamp_millis();
    let mut s = ActiveSession {
        db_id: 1, kind: Kind::Focus, todo_title: None,
        started_at: t0, duration: ms(Duration::minutes(25)),
        paused_at: Some(t0 + ms(Duration::minutes(10))),
    };
    s.resume(t0 + ms(Duration::minutes(30))); // paused 20 min
    assert_eq!(s.remaining(t0 + ms(Duration::minutes(30))), ms(Duration::minutes(15)));
    assert_eq!(s.paused_at, None);
}

#[test]
fn pause_and_resume_later_keeps_the_time_left() {
    let mut s = ActiveSession {
        db_id: 7, kind: Kind::Break, todo_title: None,
        started_at: 1_000, duration: 300_000, paused_at: None,
    };
    let before = s.remaining(61_000);
    s.paused_at = Some(61_000);
    s.resume(500_000);
    assert_eq!(s.remaining(500_000), before);
    assert_eq!(s.started_at, 1_000 + 439_000);
    // running again, it counts down one for one
    assert_eq!(s.remaining(510_000), before - 10_000);
}

#[test]
fn resume_when_running_changes_nothing() {
    let mut s = ActiveSession {
        db_id: 2, kind: Kind::Focus, todo_title: Some("x".into()),
        started_at: 5, duration: 60_000, paused_at: None,
    };
    s.resume(99);
    assert_eq!(s.started_at, 5);
    assert_eq!(s.paused_at, None);
}

#[test]
fn clock_digits() {
    assert_eq!(mmss(ms(Duration::minutes(25))), (25, 0));
    assert_eq!(mmss(61_999), (1, 1));
    assert_eq!(mmss(999), (0, 0));
    assert_eq!(mmss(-5_000), (0, 0));
    assert_eq!(digit_index('0'), 0);
    assert_eq!(digit_index('7'), 7);
    assert_eq!(digit_index(':'), 10);
    assert_eq!(Kind::Focus.as_str(), "focus");
    assert_eq!(Kind::Break.as_str(), "break");
}

#[test]
fn begin_records_a_running_session() {
    let mut p = PomodoroState::new();
    p.suggest_break = true;
    p.begin(9, Kind::Focus, 25, Some("write".into()), 1_000);
    let a = p.active.as_ref().unwrap();
    assert_eq!(a.duration, 25 * 60_000);
    assert_eq!(a.started_at, 1_000);
    assert_eq!(a.db_id, 9);
    assert!(!p.suggest_break);
}
