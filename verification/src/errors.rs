//! The error taxonomy of the punch clock. Every failure of a command maps to
//! exactly one of these kinds, each with a fixed human-readable message.

use vstd::prelude::*;

verus! {

/// Everything that can go wrong during one invocation of the punch clock.
#[derive(Clone, Copy, Debug, PartialEq, Eq, Structural)]
pub enum PunchClockError {
    NoCommandGiven,
    UnknownCommand,
    AlreadyPunchedIn,
    AlreadyPunchedOut,
    CorruptedTimeSheet,
    IoError,
}

/// The message text that belongs to each error kind.
pub open spec fn error_message(e: PunchClockError) -> Seq<char> {
    match e {
        PunchClockError::NoCommandGiven => "No command given"@,
        PunchClockError::UnknownCommand => "Unknown command"@,
        PunchClockError::AlreadyPunchedIn => "You are already punched in"@,
        PunchClockError::AlreadyPunchedOut => "You're not currently punched in"@,
        PunchClockError::CorruptedTimeSheet => "Bad data in timesheet"@,
        PunchClockError::IoError => "IO error"@,
    }
}

impl PunchClockError {
    /// The human-readable message for this error.
    pub fn message(&self) -> (r: String)
        ensures
            r@ == error_message(*self),
    {
        match self {
            PunchClockError::NoCommandGiven => String::from_str("No command given"),
            PunchClockError::UnknownCommand => String::from_str("Unknown command"),
            PunchClockError::AlreadyPunchedIn => String::from_str("You are already punched in"),
            PunchClockError::AlreadyPunchedOut => String::from_str(
                "You're not currently punched in",
            ),
            PunchClockError::CorruptedTimeSheet => String::from_str("Bad data in timesheet"),
            PunchClockError::IoError => String::from_str("IO error"),
        }
    }
}

} // verus!
