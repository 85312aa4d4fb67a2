use sploosh::error::Error;
use sploosh::time::{
    parse_time_of_day, time_until, time_until_from, local_time, naive_now, TimeOfDay,
    NANOS_PER_DAY, NANOS_PER_MIN, NANOS_PER_SEC,
};

fn hm(h: u32, m: u32) -> TimeOfDay {
    TimeOfDay::from_hm(h, m)
}

#[test]
fn until_later_today() {
    assert_eq!(time_until_from(hm(10, 0), hm(12, 30)), 150 * NANOS_PER_MIN);
}

#[test]
fn until_earlier_means_tomorrow() {
    assert_eq!(time_until_from(hm(12, 0), hm(11, 0)), NANOS_PER_DAY - 60 * NANOS_PER_MIN);
}

#[test]
fn until_now_is_zero() {
    for t in [hm(0, 0), hm(13, 37), hm(23, 59)] {
        assert_eq!(time_until_from(t, t), 0);
    }
}

#[test]
fn until_minute_ago_is_day_less_minute() {
    assert_eq!(time_until_from(hm(12, 0), hm(11, 59)), NANOS_PER_DAY - NANOS_PER_MIN);
    // across midnight
    assert_eq!(time_until_from(hm(0, 0), hm(23, 59)), NANOS_PER_DAY - NANOS_PER_MIN);
}

#[test]
fn until_always_within_day() {
    let times = [hm(0, 0), hm(0, 1), hm(6, 30), hm(12, 0), hm(23, 59)];
    for a in times {
        for b in times {
            assert!(time_until_from(a, b) < NANOS_PER_DAY);
        }
    }
    let last = TimeOfDay { nanos: NANOS_PER_DAY - 1 };
    assert_eq!(time_until_from(last, hm(0, 0)), 1);
    assert_eq!(time_until_from(hm(0, 0), last), NANOS_PER_DAY - 1);
}

#[test]
fn until_five_seconds_ahead() {
    let now = hm(8, 0);
    let target = now.add_nanos(5 * NANOS_PER_SEC);
    assert_eq!(time_until_from(now, target), 5 * NANOS_PER_SEC);
    let late = TimeOfDay { nanos: NANOS_PER_DAY - 2 * NANOS_PER_SEC };
    assert_eq!(time_until_from(late, late.add_nanos(5 * NANOS_PER_SEC)), 5 * NANOS_PER_SEC);
}

#[test]
fn until_against_real_clock_is_within_day() {
    for t in [hm(0, 0), hm(12, 0), hm(23, 59)] {
        assert!(time_until(t) < NANOS_PER_DAY);
    }
    assert!(local_time().nanos < NANOS_PER_DAY);
    assert!(naive_now().nanos < NANOS_PER_DAY);
}

#[test]
fn add_wraps_at_midnight() {
    assert_eq!(hm(23, 0).add_nanos(120 * NANOS_PER_MIN), hm(1, 0));
    assert_eq!(hm(6, 0).add_nanos(NANOS_PER_DAY), hm(6, 0));
    assert_eq!(hm(6, 0).add_nanos(0), hm(6, 0));
}

#[test]
fn parts_clamp_leap_second() {
    assert_eq!(TimeOfDay::from_parts(3723, 500).nanos, 3723 * NANOS_PER_SEC + 500);
    assert_eq!(TimeOfDay::from_parts(86399, 1_500_000_000).nanos, NANOS_PER_DAY - 1);
}

#[test]
fn parse_hh_mm() {
    assert_eq!(parse_time_of_day("07:15"), Ok(hm(7, 15)));
    assert_eq!(parse_time_of_day("23:59"), Ok(hm(23, 59)));
    assert_eq!(parse_time_of_day("00:00"), Ok(hm(0, 0)));
}

#[test]
fn parse_rejects_bad_text() {
    assert_eq!(parse_time_of_day("17:60"), Err(Error::TimeParsing));
    assert_eq!(parse_time_of_day("24:00"), Err(Error::TimeParsing));
    assert_eq!(parse_time_of_day("noon"), Err(Error::TimeParsing));
    assert_eq!(parse_time_of_day(""), Err(Error::TimeParsing));
}
