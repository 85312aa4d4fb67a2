use sploosh::controller::{DailyTimer, Phase};
use sploosh::error::Error;
use sploosh::protocol::{GpioMessage, GpioOutMessage};
use sploosh::settings::{IntervalSettings, IntervalTimer, NewDaily};
use sploosh::skeleton::to_numcols;
use sploosh::time::{TimeOfDay, NANOS_PER_DAY, NANOS_PER_MIN, NANOS_PER_SEC};

fn on(ch: u16) -> GpioOutMessage {
    GpioOutMessage { output: ch, value: true }
}

/// Runs a window under a simulated clock that starts at `start` and jumps
/// straight to each wake-up; returns each send with its instant.
fn simulate(t: &DailyTimer, start: u64, sends: usize) -> Vec<(u64, GpioOutMessage)> {
    let mut now = start;
    let mut phase = Phase::WaitingForOn;
    let mut out = Vec::new();
    for _ in 0..sends {
        now += t.wait_from(phase, now);
        let s = t.step(phase);
        out.push((now, s.send));
        phase = s.next;
    }
    out
}

#[test]
fn window_emits_daily_alternating_sequence() {
    let start = TimeOfDay::from_hm(6, 0);
    let d = 30 * NANOS_PER_MIN;
    let t = DailyTimer::new(start, on(3), d);
    let t0 = start.nanos;
    let got = simulate(&t, 0, 6);
    let off = GpioOutMessage { output: 3, value: false };
    assert_eq!(
        got,
        vec![
            (t0, on(3)),
            (t0 + d, off),
            (t0 + NANOS_PER_DAY, on(3)),
            (t0 + NANOS_PER_DAY + d, off),
            (t0 + 2 * NANOS_PER_DAY, on(3)),
            (t0 + 2 * NANOS_PER_DAY + d, off),
        ]
    );
    for w in got.windows(2) {
        assert_ne!(w[0].1.value, w[1].1.value);
    }
}

#[test]
fn window_wrapping_past_midnight() {
    let start = TimeOfDay::from_hm(23, 0);
    let d = 120 * NANOS_PER_MIN;
    let t = DailyTimer::new(start, on(1), d);
    assert_eq!(t.stop_time(), TimeOfDay::from_hm(1, 0));
    let begin = 12 * 60 * NANOS_PER_MIN;
    let got = simulate(&t, begin, 4);
    assert_eq!(got[0].0, start.nanos);
    assert_eq!(got[1].0, start.nanos + d);
    assert_eq!(got[2].0, start.nanos + NANOS_PER_DAY);
    assert_eq!(got[3].0, start.nanos + NANOS_PER_DAY + d);
}

#[test]
fn window_steps_and_off_command() {
    let t = DailyTimer::new(TimeOfDay::from_hm(8, 0), on(9), 10 * NANOS_PER_SEC);
    assert_eq!(t.off_msg(), GpioOutMessage { output: 9, value: false });
    let s = t.step(Phase::WaitingForOn);
    assert_eq!(s.wait_until, TimeOfDay::from_hm(8, 0));
    assert_eq!(s.send, on(9));
    assert_eq!(s.next, Phase::WaitingForOff);
    let s = t.step(Phase::WaitingForOff);
    assert_eq!(s.wait_until.nanos, 8 * 60 * NANOS_PER_MIN + 10 * NANOS_PER_SEC);
    assert_eq!(s.send.value, false);
    assert_eq!(s.next, Phase::WaitingForOn);
}

#[test]
fn inverted_message_and_conversion() {
    let m = on(476);
    assert_eq!(m.inverted(), GpioOutMessage { output: 476, value: false });
    assert_eq!(GpioMessage::from(m), GpioMessage::Out(m));
}

#[test]
fn zero_duration_is_refused() {
    let start = TimeOfDay::from_hm(7, 0);
    assert_eq!(IntervalSettings::once_daily(0, start), Err(Error::InvalidDuration));
    assert!(matches!(
        IntervalTimer::once_daily(Some("x".to_string()), None, 0, start),
        Err(Error::InvalidDuration)
    ));
    assert!(matches!(IntervalSettings::daily_now(0), Err(Error::InvalidDuration)));
}

#[test]
fn daily_window_fills_the_day() {
    let start = TimeOfDay::from_hm(7, 0);
    let s = IntervalSettings::once_daily(90 * NANOS_PER_MIN, start).unwrap();
    assert_eq!(s.duration_on, 90 * NANOS_PER_MIN);
    assert_eq!(s.duration_off, NANOS_PER_DAY - 90 * NANOS_PER_MIN);
    assert_eq!(s.start_time, Some(start));
    let full = IntervalSettings::once_daily(NANOS_PER_DAY, start).unwrap();
    assert_eq!(full.duration_off, 0);
    let now = IntervalSettings::daily_now(NANOS_PER_SEC).unwrap();
    assert!(now.start_time.is_some());
    let raw = IntervalSettings::new(1, 2, None);
    assert_eq!((raw.duration_on, raw.duration_off, raw.start_time), (1, 2, None));
}

fn form(secs: u32, start: &str) -> NewDaily {
    NewDaily {
        name: "valve".to_string(),
        description: Some("garden".to_string()),
        duration_on: secs,
        start_time: start.to_string(),
    }
}

#[test]
fn form_is_read_into_a_timer() {
    let t = IntervalTimer::from_newdaily(form(120, "06:45")).unwrap();
    assert_eq!(t.name, Some("valve".to_string()));
    assert_eq!(t.description, Some("garden".to_string()));
    let s = t.settings();
    assert_eq!(s.duration_on, 120 * NANOS_PER_SEC);
    assert_eq!(s.duration_off, NANOS_PER_DAY - 120 * NANOS_PER_SEC);
    assert_eq!(s.start_time, Some(TimeOfDay::from_hm(6, 45)));
}

#[test]
fn form_errors() {
    assert!(matches!(IntervalTimer::from_newdaily(form(0, "06:45")), Err(Error::InvalidDuration)));
    assert!(matches!(IntervalTimer::from_newdaily(form(10, "6h45")), Err(Error::TimeParsing)));
    // a bad time is reported before a zero duration
    assert_eq!(IntervalSettings::from_newdaily(form(0, "xx")), Err(Error::TimeParsing));
    assert_eq!(IntervalSettings::from_form(0, "10:00"), Err(Error::InvalidDuration));
}

#[test]
fn timers_get_fresh_ids() {
    let s = IntervalSettings::new(1, 2, None);
    let a = IntervalTimer::new(None, None, s);
    let b = IntervalTimer::new(None, None, s);
    assert_ne!(a.get_id(), b.get_id());
    let c = IntervalTimer::with_id(42, None, None, s);
    assert_eq!(c.get_id(), 42);
    let d = IntervalTimer::daily_now(None, None, NANOS_PER_SEC).unwrap();
    assert_eq!(d.settings().duration_on, NANOS_PER_SEC);
}

#[test]
fn column_classes() {
    assert_eq!(to_numcols(1), "one column");
    assert_eq!(to_numcols(2), "two columns");
    assert_eq!(to_numcols(6), "six columns");
    assert_eq!(to_numcols(11), "eleven columns");
    assert_eq!(to_numcols(12), "twelve columns");
    assert_eq!(to_numcols(0), "twelve columns");
    assert_eq!(to_numcols(255), "twelve columns");
}

#[test]
fn error_messages() {
    assert_eq!(Error::InvalidDuration.message(), "Duration cannot be zero");
    assert_eq!(Error::TimeParsing.message(), "Failed to parse time from hh:mm format");
    assert_ne!(Error::SendFailure.message(), Error::HardwareFault.message());
}
