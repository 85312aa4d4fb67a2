use vstd::prelude::*;
use crate::error::Error;
use crate::time::{
    NANOS_PER_DAY,
    NANOS_PER_SEC,
    SECS_PER_DAY,
    TimeOfDay,
    hm_seconds_of,
    naive_now,
    parse_time_of_day,
};

verus! {

/// An actuation window: on for `duration_on` nanoseconds, off for
/// `duration_off`, starting at `start_time` if one is set.
#[derive(Debug, Clone, Copy, PartialEq, Eq)]
pub struct IntervalSettings {
    pub duration_on: u64,
    pub duration_off: u64,
    pub start_time: Option<TimeOfDay>,
}

/// The form in which a new daily window is requested.
#[derive(Debug)]
pub struct NewDaily {
    /// The name of the new timer
    pub name: String,
    pub description: Option<String>,
    /// Duration in seconds
    pub duration_on: u32,
    /// Time of day to run, in %H:%M format
    pub start_time: String,
}

/// The once-a-day window that starts at `start` and stays on for `duration_on`.
pub open spec fn daily_window(duration_on: u64, start: TimeOfDay) -> IntervalSettings {
    IntervalSettings {
        duration_on,
        duration_off: (NANOS_PER_DAY - duration_on) as u64,
        start_time: Some(start),
    }
}

/// What a form with `secs` seconds on and start text `text` yields: a parse
/// failure first, then a zero duration, else the daily window.
pub open spec fn form_result(secs: u32, text: Seq<char>) -> Result<IntervalSettings, Error> {
    match hm_seconds_of(text) {
        None => Err(Error::TimeParsing),
        Some(s) => if secs == 0 {
            Err(Error::InvalidDuration)
        } else {
            Ok(
                daily_window(
                    (secs * NANOS_PER_SEC) as u64,
                    TimeOfDay { nanos: (s * NANOS_PER_SEC) as u64 },
                ),
            )
        },
    }
}

impl IntervalSettings {
    pub fn new(duration_on: u64, duration_off: u64, start_time: Option<TimeOfDay>) -> (r:
        IntervalSettings)
        ensures
            r == (IntervalSettings { duration_on, duration_off, start_time }),
    {
        IntervalSettings { duration_on, duration_off, start_time }
    }

    /// A window on for `duration_on` each day from `start_time`, off for the
    /// rest of the day. A zero duration is refused.
    pub fn once_daily(duration_on: u64, start_time: TimeOfDay) -> (r: Result<
        IntervalSettings,
        Error,
    >)
        requires
            duration_on <= NANOS_PER_DAY,
        ensures
            duration_on == 0 ==> r == Err::<IntervalSettings, Error>(Error::InvalidDuration),
            duration_on != 0 ==> r == Ok::<IntervalSettings, Error>(
                daily_window(duration_on, start_time),
            ),
    {
        if duration_on == 0 {
            Err(Error::InvalidDuration)
        } else {
            let duration_off = NANOS_PER_DAY - duration_on;
            Ok(IntervalSettings { duration_on, duration_off, start_time: Some(start_time) })
        }
    }

    /// A daily window that starts at the current local time.
    pub fn daily_now(duration_on: u64) -> (r: Result<IntervalSettings, Error>)
        requires
            duration_on <= NANOS_PER_DAY,
        ensures
            duration_on == 0 ==> r == Err::<IntervalSettings, Error>(Error::InvalidDuration),
            duration_on != 0 ==> r is Ok && r->Ok_0.duration_on == duration_on
                && r->Ok_0.duration_off == NANOS_PER_DAY - duration_on
                && r->Ok_0.start_time is Some && r->Ok_0.start_time->Some_0.wf(),
    {
        IntervalSettings::once_daily(duration_on, naive_now())
    }

    /// A daily window from a duration in seconds and an `HH:MM` start time.
    pub fn from_form(duration_on: u32, start_time: &str) -> (r: Result<IntervalSettings, Error>)
        requires
            duration_on <= SECS_PER_DAY,
        ensures
            r == form_result(duration_on, start_time@),
    {
        let on: u64 = duration_on as u64 * NANOS_PER_SEC;
        let start = parse_time_of_day(start_time)?;
        IntervalSettings::once_daily(on, start)
    }

    /// A daily window from a submitted form.
    pub fn from_newdaily(n: NewDaily) -> (r: Result<IntervalSettings, Error>)
        requires
            n.duration_on <= SECS_PER_DAY,
        ensures
            r == form_result(n.duration_on, n.start_time@),
    {
        IntervalSettings::from_form(n.duration_on, n.start_time.as_str())
    }
}

/// Relies on `uuid::Uuid::new_v4`, read back through `Uuid::as_u128`: a fresh
/// random identifier.
#[verifier::external_body]
fn new_id() -> (r: u128) {
    uuid::Uuid::new_v4().as_u128()
}

/// A named, stored schedule.
#[derive(Debug)]
pub struct IntervalTimer {
    pub id: u128,
    pub name: Option<String>,
    pub description: Option<String>,
    pub settings: IntervalSettings,
}

impl IntervalTimer {
    pub open spec fn id_spec(&self) -> u128 {
        self.id
    }

    pub open spec fn settings_spec(&self) -> IntervalSettings {
        self.settings
    }

    pub fn get_id(&self) -> (r: u128)
        ensures
            r == self.id_spec(),
    {
        self.id
    }

    pub fn settings(&self) -> (r: IntervalSettings)
        ensures
            r == self.settings_spec(),
    {
        self.settings
    }

    /// A timer with the given identifier, as read back from storage.
    pub fn with_id(
        id: u128,
        name: Option<String>,
        description: Option<String>,
        settings: IntervalSettings,
    ) -> (r: IntervalTimer)
        ensures
            r.id_spec() == id,
            r.name == name,
            r.description == description,
            r.settings_spec() == settings,
    {
        IntervalTimer { id, name, description, settings }
    }

    /// A timer with a fresh identifier.
    pub fn new(name: Option<String>, description: Option<String>, settings: IntervalSettings) -> (r:
        IntervalTimer)
        ensures
            r.name == name,
            r.description == description,
            r.settings_spec() == settings,
    {
        IntervalTimer { id: new_id(), name, description, settings }
    }

    /// A timer on a daily window; a zero duration is refused.
    pub fn once_daily(
        name: Option<String>,
        description: Option<String>,
        duration_on: u64,
        start_time: TimeOfDay,
    ) -> (r: Result<IntervalTimer, Error>)
        requires
            duration_on <= NANOS_PER_DAY,
        ensures
            duration_on == 0 <==> r is Err,
            r is Err ==> r->Err_0 == Error::InvalidDuration,
            r is Ok ==> r->Ok_0.name == name && r->Ok_0.description == description
                && r->Ok_0.settings_spec() == daily_window(duration_on, start_time),
    {
        let settings = IntervalSettings::once_daily(duration_on, start_time)?;
        Ok(IntervalTimer { id: new_id(), name, description, settings })
    }

    /// A timer on a daily window that starts now; a zero duration is refused.
    pub fn daily_now(name: Option<String>, description: Option<String>, duration_on: u64) -> (r:
        Result<IntervalTimer, Error>)
        requires
            duration_on <= NANOS_PER_DAY,
        ensures
            duration_on == 0 <==> r is Err,
            r is Err ==> r->Err_0 == Error::InvalidDuration,
            r is Ok ==> r->Ok_0.name == name && r->Ok_0.description == description
                && r->Ok_0.settings_spec().duration_on == duration_on
                && r->Ok_0.settings_spec().duration_off == NANOS_PER_DAY - duration_on
                && r->Ok_0.settings_spec().start_time is Some,
    {
        let settings = IntervalSettings::daily_now(duration_on)?;
        Ok(IntervalTimer { id: new_id(), name, description, settings })
    }

    /// A timer from a submitted form, named after it.
    pub fn from_newdaily(n: NewDaily) -> (r: Result<IntervalTimer, Error>)
        requires
            n.duration_on <= SECS_PER_DAY,
        ensures
            r is Ok <==> form_result(n.duration_on, n.start_time@) is Ok,
            r is Err ==> r == Err::<IntervalTimer, Error>(
                form_result(n.duration_on, n.start_time@)->Err_0,
            ),
            r is Ok ==> r->Ok_0.name == Some(n.name) && r->Ok_0.description == n.description
                && r->Ok_0.settings_spec() == form_result(n.duration_on, n.start_time@)->Ok_0,
    {
        let NewDaily { name, description, duration_on, start_time } = n;
        let settings = IntervalSettings::from_form(duration_on, start_time.as_str())?;
        Ok(IntervalTimer { id: new_id(), name: Some(name), description, settings })
    }
}

} // verus!
