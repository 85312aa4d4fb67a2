use vstd::prelude::*;
use vstd::arithmetic::div_mod::{
    lemma_fundamental_div_mod,
    lemma_mod_multiples_vanish,
    lemma_small_mod,
};
use crate::protocol::GpioOutMessage;
use crate::time::{NANOS_PER_DAY, TimeOfDay, time_until_from, until_spec, wrap_add};

verus! {

/// A daily on/off window on one output: drive `msg` at `time`, and its
/// inverse `duration` nanoseconds later (wrapping at midnight), every day.
#[derive(Debug, Clone, Copy, PartialEq, Eq, Structural)]
pub struct DailyTimer {
    pub time: TimeOfDay,
    pub msg: GpioOutMessage,
    pub duration: u64,
}

/// The two states of a running window.
#[derive(Debug, Clone, Copy, PartialEq, Eq, Structural)]
pub enum Phase {
    WaitingForOn,
    WaitingForOff,
}

/// What a window does in one phase: wait until `wait_until`, send `send`,
/// then move to `next`.
#[derive(Debug, Clone, Copy, PartialEq, Eq, Structural)]
pub struct Step {
    pub wait_until: TimeOfDay,
    pub send: GpioOutMessage,
    pub next: Phase,
}

impl DailyTimer {
    pub open spec fn wf(self) -> bool {
        self.time.wf()
    }

    /// The time of day at which the window closes.
    pub open spec fn stop_spec(self) -> TimeOfDay {
        TimeOfDay { nanos: wrap_add(self.time.nanos as int, self.duration as int) as u64 }
    }

    /// The command that closes the window.
    pub open spec fn off_spec(self) -> GpioOutMessage {
        GpioOutMessage { output: self.msg.output, value: !self.msg.value }
    }

    /// The step taken in `phase`.
    pub open spec fn step_spec(self, phase: Phase) -> Step {
        match phase {
            Phase::WaitingForOn => Step {
                wait_until: self.time,
                send: self.msg,
                next: Phase::WaitingForOff,
            },
            Phase::WaitingForOff => Step {
                wait_until: self.stop_spec(),
                send: self.off_spec(),
                next: Phase::WaitingForOn,
            },
        }
    }

    pub fn new(time: TimeOfDay, msg: GpioOutMessage, duration: u64) -> (r: DailyTimer)
        ensures
            r == (DailyTimer { time, msg, duration }),
    {
        DailyTimer { time, msg, duration }
    }

    /// The time of day at which the window closes: the start plus the
    /// on-duration, modulo one day.
    pub fn stop_time(&self) -> (r: TimeOfDay)
        requires
            self.wf(),
        ensures
            r == self.stop_spec(),
            r.wf(),
    {
        self.time.add_nanos(self.duration)
    }

    /// The command that closes the window: the opening one inverted.
    pub fn off_msg(&self) -> (r: GpioOutMessage)
        ensures
            r == self.off_spec(),
    {
        self.msg.inverted()
    }

    /// What to wait for and send in `phase`, and the phase that follows.
    /// The close is always measured from the nominal start time.
    pub fn step(&self, phase: Phase) -> (r: Step)
        requires
            self.wf(),
        ensures
            r == self.step_spec(phase),
            r.wait_until.wf(),
    {
        match phase {
            Phase::WaitingForOn => Step {
                wait_until: self.time,
                send: self.msg,
                next: Phase::WaitingForOff,
            },
            Phase::WaitingForOff => Step {
                wait_until: self.stop_time(),
                send: self.off_msg(),
                next: Phase::WaitingForOn,
            },
        }
    }

    /// Under a clock that reads `now` (nanoseconds since some midnight), the
    /// wait before the step of `phase` fires.
    pub fn wait_from(&self, phase: Phase, now: u64) -> (r: u64)
        requires
            self.wf(),
        ensures
            r == until_spec((now % NANOS_PER_DAY) as int, self.step_spec(phase).wait_until.nanos as int),
            fire_at(now as int, self.step_spec(phase).wait_until) == now + r,
    {
        let s = self.step(phase);
        let tod = TimeOfDay { nanos: now % NANOS_PER_DAY };
        time_until_from(tod, s.wait_until)
    }
}

/// The instant at which a wait for `target` that begins at instant `a`
/// (nanoseconds since some midnight) ends.
pub open spec fn fire_at(a: int, target: TimeOfDay) -> int {
    a + until_spec(a % (NANOS_PER_DAY as int), target.nanos as int)
}

/// The instant and command of the `k`-th send of a window that enters `phase`
/// at instant `a`, counting from zero.
pub open spec fn emission(t: DailyTimer, a: int, phase: Phase, k: nat) -> (int, GpioOutMessage)
    decreases k,
{
    let s = t.step_spec(phase);
    let at = fire_at(a, s.wait_until);
    if k == 0 {
        (at, s.send)
    } else {
        emission(t, at, s.next, (k - 1) as nat)
    }
}

proof fn lemma_mod_day(q: int, r: int)
    requires
        0 <= r < NANOS_PER_DAY,
    ensures
        (NANOS_PER_DAY * q + r) % (NANOS_PER_DAY as int) == r,
{
    lemma_mod_multiples_vanish(q, r, NANOS_PER_DAY as int);
    lemma_small_mod(r as nat, NANOS_PER_DAY as nat);
}

/// One cycle of a window with `0 < duration < 24h`, begun at any instant: it
/// opens on its start time, closes exactly `duration` later, and opens again
/// exactly one day after it first opened.
pub proof fn lemma_one_cycle(t: DailyTimer, a: int)
    requires
        t.wf(),
        0 < t.duration < NANOS_PER_DAY,
        a >= 0,
    ensures
        fire_at(a, t.time) % (NANOS_PER_DAY as int) == t.time.nanos,
        fire_at(a, t.time) >= a,
        fire_at(fire_at(a, t.time), t.stop_spec()) == fire_at(a, t.time) + t.duration,
        fire_at(fire_at(fire_at(a, t.time), t.stop_spec()), t.time) == fire_at(a, t.time)
            + NANOS_PER_DAY,
{
    let day = NANOS_PER_DAY as int;
    let tt = t.time.nanos as int;
    let d = t.duration as int;
    lemma_fundamental_div_mod(a, day);
    let q = a / day;
    let r = a % day;
    let on1 = fire_at(a, t.time);
    if tt >= r {
        assert(on1 == day * q + tt);
        lemma_mod_day(q, tt);
    } else {
        assert(on1 == day * (q + 1) + tt) by (nonlinear_arith)
            requires
                on1 == a + day - (r - tt),
                a == day * q + r,
        ;
        lemma_mod_day(q + 1, tt);
    }
    lemma_fundamental_div_mod(on1, day);
    let q1 = on1 / day;
    assert(on1 == day * q1 + tt);
    let s = t.stop_spec().nanos as int;
    if tt + d < day {
        lemma_small_mod((tt + d) as nat, day as nat);
        assert(s == tt + d);
    } else {
        lemma_mod_multiples_vanish(1, tt + d - day, day);
        lemma_small_mod((tt + d - day) as nat, day as nat);
        assert(s == tt + d - day);
    }
    let off1 = fire_at(on1, t.stop_spec());
    assert(off1 == on1 + d);
    if tt + d < day {
        lemma_mod_day(q1, tt + d);
    } else {
        assert(off1 == day * (q1 + 1) + (tt + d - day)) by (nonlinear_arith)
            requires
                off1 == day * q1 + tt + d,
        ;
        lemma_mod_day(q1 + 1, tt + d - day);
    }
    assert(off1 % day == s);
}

/// Under a clock that runs on from any instant, a window with
/// `0 < duration < 24h` emits exactly: its command at its start time, the
/// inverse `duration` later, then the same two one day later, and so on.
/// Sends alternate, so no command is ever repeated twice in a row.
pub proof fn lemma_daily_sequence(t: DailyTimer, a: int, k: nat)
    requires
        t.wf(),
        0 < t.duration < NANOS_PER_DAY,
        a >= 0,
    ensures
        emission(t, a, Phase::WaitingForOn, 2 * k) == (
        fire_at(a, t.time) + k * NANOS_PER_DAY,
        t.msg,
        ),
        emission(t, a, Phase::WaitingForOn, 2 * k + 1) == (
        fire_at(a, t.time) + k * NANOS_PER_DAY + t.duration,
        t.off_spec(),
        ),
    decreases k,
{
    lemma_one_cycle(t, a);
    let on1 = fire_at(a, t.time);
    let off1 = fire_at(on1, t.stop_spec());
    if k == 0 {
        assert(emission(t, on1, Phase::WaitingForOff, 0) == (off1, t.off_spec()));
    } else {
        let k1 = (k - 1) as nat;
        lemma_daily_sequence(t, off1, k1);
        assert(emission(t, a, Phase::WaitingForOn, 2 * k) == emission(
            t,
            on1,
            Phase::WaitingForOff,
            (2 * k - 1) as nat,
        ));
        assert(emission(t, on1, Phase::WaitingForOff, (2 * k - 1) as nat) == emission(
            t,
            off1,
            Phase::WaitingForOn,
            2 * k1,
        ));
        assert(emission(t, a, Phase::WaitingForOn, 2 * k + 1) == emission(
            t,
            on1,
            Phase::WaitingForOff,
            2 * k,
        ));
        assert(emission(t, on1, Phase::WaitingForOff, 2 * k) == emission(
            t,
            off1,
            Phase::WaitingForOn,
            (2 * k - 1) as nat,
        ));
        assert(emission(t, a, Phase::WaitingForOn, 2 * k) == emission(
            t,
            off1,
            Phase::WaitingForOn,
            2 * k1,
        ));
        assert(emission(t, a, Phase::WaitingForOn, 2 * k + 1) == emission(
            t,
            off1,
            Phase::WaitingForOn,
            2 * k1 + 1,
        ));
        assert(fire_at(off1, t.time) + k1 * NANOS_PER_DAY == on1 + k * NANOS_PER_DAY)
            by (nonlinear_arith)
            requires
                fire_at(off1, t.time) == on1 + NANOS_PER_DAY,
                k1 == k - 1,
        ;
    }
}

} // verus!
