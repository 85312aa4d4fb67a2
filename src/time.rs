use chrono::Timelike;
use vstd::prelude::*;
use crate::error::Error;

verus! {

/// Nanoseconds in one second.
pub const NANOS_PER_SEC: u64 = 1000000000;

/// Nanoseconds in one minute.
pub const NANOS_PER_MIN: u64 = 60000000000;

/// Seconds in one day.
pub const SECS_PER_DAY: u64 = 86400;

/// Nanoseconds in one day: the length of the time-of-day circle.
pub const NANOS_PER_DAY: u64 = 86400000000000;

/// A clock time with no date, held as nanoseconds past midnight.
#[derive(Debug, Clone, Copy, PartialEq, Eq, Structural)]
pub struct TimeOfDay {
    pub nanos: u64,
}

impl TimeOfDay {
    /// A time of day lies in `[00:00, 24:00)`.
    pub open spec fn wf(self) -> bool {
        self.nanos < NANOS_PER_DAY
    }

    /// Builds a time of day from seconds past midnight and a fraction of a second.
    /// A fraction at or beyond one second (how a leap second is reported) is
    /// clamped to the last nanosecond of that second.
    pub fn from_parts(secs: u32, frac: u32) -> (r: TimeOfDay)
        requires
            secs < SECS_PER_DAY,
        ensures
            r.wf(),
            r.nanos == secs * NANOS_PER_SEC + if frac < NANOS_PER_SEC {
                frac as int
            } else {
                NANOS_PER_SEC - 1
            },
    {
        let f: u64 = if (frac as u64) < NANOS_PER_SEC {
            frac as u64
        } else {
            NANOS_PER_SEC - 1
        };
        assert(secs * NANOS_PER_SEC <= (SECS_PER_DAY - 1) * NANOS_PER_SEC) by (nonlinear_arith)
            requires
                secs < SECS_PER_DAY,
        ;
        TimeOfDay { nanos: secs as u64 * NANOS_PER_SEC + f }
    }

    /// Builds a time of day from hours and minutes.
    pub fn from_hm(hour: u32, minute: u32) -> (r: TimeOfDay)
        requires
            hour < 24,
            minute < 60,
        ensures
            r.wf(),
            r.nanos == (hour * 60 + minute) * NANOS_PER_MIN,
    {
        let m: u64 = hour as u64 * 60 + minute as u64;
        assert(m * NANOS_PER_MIN <= 1439 * NANOS_PER_MIN) by (nonlinear_arith)
            requires
                m <= 1439,
        ;
        TimeOfDay { nanos: m * NANOS_PER_MIN }
    }

    /// The time of day `d` nanoseconds after `self`, wrapping at midnight.
    pub fn add_nanos(self, d: u64) -> (r: TimeOfDay)
        requires
            self.wf(),
        ensures
            r.wf(),
            r.nanos == wrap_add(self.nanos as int, d as int),
    {
        TimeOfDay { nanos: ((self.nanos as u128 + d as u128) % (NANOS_PER_DAY as u128)) as u64 }
    }
}

/// Time-of-day addition modulo one day.
pub open spec fn wrap_add(t: int, d: int) -> int {
    (t + d) % (NANOS_PER_DAY as int)
}

/// The wait, in nanoseconds, from `now` until the next occurrence of `target`:
/// later today when `target` is after `now`, else tomorrow; `target == now`
/// waits nothing.
pub open spec fn until_spec(now: int, target: int) -> int {
    if target >= now {
        target - now
    } else {
        NANOS_PER_DAY - (now - target)
    }
}

/// The wait from `now` until the next occurrence of `target`, in nanoseconds.
pub fn time_until_from(now: TimeOfDay, target: TimeOfDay) -> (r: u64)
    requires
        now.wf(),
        target.wf(),
    ensures
        r < NANOS_PER_DAY,
        r == until_spec(now.nanos as int, target.nanos as int),
{
    if target.nanos >= now.nanos {
        target.nanos - now.nanos
    } else {
        NANOS_PER_DAY - (now.nanos - target.nanos)
    }
}

/// Waiting until the time it is now takes no time at all.
pub proof fn lemma_until_now_is_zero(now: TimeOfDay)
    requires
        now.wf(),
    ensures
        until_spec(now.nanos as int, now.nanos as int) == 0,
{
}

/// Every wait lies in `[0, 24h)`.
pub proof fn lemma_until_within_day(now: TimeOfDay, target: TimeOfDay)
    requires
        now.wf(),
        target.wf(),
    ensures
        0 <= until_spec(now.nanos as int, target.nanos as int) < NANOS_PER_DAY,
{
}

/// A target one minute before now (on the day's circle) is a full day less a
/// minute away.
pub proof fn lemma_until_minute_ago(now: TimeOfDay, target: TimeOfDay)
    requires
        now.wf(),
        target.wf(),
        wrap_add(target.nanos as int, NANOS_PER_MIN as int) == now.nanos,
    ensures
        until_spec(now.nanos as int, target.nanos as int) == NANOS_PER_DAY - NANOS_PER_MIN,
{
}

/// A target `d` ahead of now, for `0 <= d < 24h`, is exactly `d` away.
pub proof fn lemma_until_ahead(now: TimeOfDay, d: int)
    requires
        now.wf(),
        0 <= d < NANOS_PER_DAY,
    ensures
        until_spec(now.nanos as int, wrap_add(now.nanos as int, d)) == d,
{
}

#[verifier::external_type_specification]
#[verifier::external_body]
pub struct ExParseError(chrono::ParseError);

/// Reads the local wall clock through `chrono::Local::now`, and hands back the
/// time of day as `Timelike::num_seconds_from_midnight` (below one day) and
/// `Timelike::nanosecond` (below two seconds, a leap second reaching past one).
#[verifier::external_body]
fn local_clock_parts() -> (r: (u32, u32))
    ensures
        r.0 < SECS_PER_DAY,
        r.1 < 2 * NANOS_PER_SEC,
{
    let t = chrono::Local::now().time();
    (t.num_seconds_from_midnight(), t.nanosecond())
}

/// The time of day that `chrono::NaiveTime::parse_from_str(s, "%H:%M")` reads
/// from `s`, as seconds past midnight, or `None` where it fails.
pub uninterp spec fn hm_seconds_of(s: Seq<char>) -> Option<int>;

/// Relies on `chrono::NaiveTime::parse_from_str` with the format `"%H:%M"`:
/// success depends on the text alone, seconds are zero, and the result is a
/// time of day (`Timelike::num_seconds_from_midnight` is below one day).
#[verifier::external_body]
fn parse_hm_seconds(s: &str) -> (r: Result<u32, chrono::ParseError>)
    ensures
        r is Ok <==> hm_seconds_of(s@) is Some,
        r is Ok ==> r->Ok_0 == hm_seconds_of(s@)->Some_0,
        r is Ok ==> r->Ok_0 < SECS_PER_DAY,
        r is Ok ==> r->Ok_0 % 60 == 0,
{
    chrono::NaiveTime::parse_from_str(s, "%H:%M").map(|t| t.num_seconds_from_midnight())
}

/// The current local time of day.
pub fn local_time() -> (r: TimeOfDay)
    ensures
        r.wf(),
{
    let (secs, frac) = local_clock_parts();
    TimeOfDay::from_parts(secs, frac)
}

/// The current local time of day; the same reading as [`local_time`].
pub fn naive_now() -> (r: TimeOfDay)
    ensures
        r.wf(),
{
    local_time()
}

/// The wait from the current local time until the next occurrence of
/// `target`, in nanoseconds: never negative and always under one day.
pub fn time_until(target: TimeOfDay) -> (r: u64)
    requires
        target.wf(),
    ensures
        r < NANOS_PER_DAY,
        exists|now: TimeOfDay| #![auto]
            now.wf() && r == until_spec(now.nanos as int, target.nanos as int),
{
    let now = local_time();
    time_until_from(now, target)
}

/// Reads a time of day written `HH:MM` on a 24-hour clock.
pub fn parse_time_of_day(s: &str) -> (r: Result<TimeOfDay, Error>)
    ensures
        r is Ok <==> hm_seconds_of(s@) is Some,
        r is Ok ==> r->Ok_0.wf() && r->Ok_0.nanos == hm_seconds_of(s@)->Some_0 * NANOS_PER_SEC,
        r is Err ==> r->Err_0 == Error::TimeParsing,
{
    match parse_hm_seconds(s) {
        Ok(secs) => Ok(TimeOfDay::from_parts(secs, 0)),
        Err(_) => Err(Error::TimeParsing),
    }
}

} // verus!
