use vstd::prelude::*;

verus! {

/// What can go wrong in scheduling and actuation.
#[derive(Debug, Clone, Copy, PartialEq, Eq, Structural)]
pub enum Error {
    /// A window's on-duration is zero.
    InvalidDuration,
    /// A start time could not be read as `HH:MM`.
    TimeParsing,
    /// A command could not be delivered to the hardware actor.
    SendFailure,
    /// Opening or writing a hardware output failed.
    HardwareFault,
}

impl Error {
    /// A short human-readable description.
    pub fn message(&self) -> (r: String)
        ensures
            r@ == error_message(*self),
    {
        match self {
            Error::InvalidDuration => "Duration cannot be zero".to_string(),
            Error::TimeParsing => "Failed to parse time from hh:mm format".to_string(),
            Error::SendFailure => "Failed to send a command to the hardware actor".to_string(),
            Error::HardwareFault => "Hardware output could not be opened or written".to_string(),
        }
    }
}

/// The description of each error.
pub open spec fn error_message(e: Error) -> Seq<char> {
    match e {
        Error::InvalidDuration => "Duration cannot be zero"@,
        Error::TimeParsing => "Failed to parse time from hh:mm format"@,
        Error::SendFailure => "Failed to send a command to the hardware actor"@,
        Error::HardwareFault => "Hardware output could not be opened or written"@,
    }
}

} // verus!
