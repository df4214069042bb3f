//! The punch clock's command surface: the command words, and the decisions
//! taken on a punch event from the current working state. The record line
//! to append is produced here; writing it to the log is the caller's side.

use vstd::prelude::*;

use crate::errors::PunchClockError;
use crate::record::{record_chars, render_record, RecordKind};
use crate::timestamp::Timestamp;

verus! {

/// The four commands the punch clock understands.
#[derive(Clone, Copy, Debug, PartialEq, Eq, Structural)]
pub enum Command {
    In,
    Out,
    Status,
    Report,
}

/// Maps the command-line word to a command: `None` is a missing command,
/// an unknown word an error of its own.
pub fn parse_command(arg: &Option<String>) -> (r: Result<Command, PunchClockError>)
    ensures
        arg is None ==> r == Err::<Command, PunchClockError>(PunchClockError::NoCommandGiven),
        arg matches Some(s) ==> {
            &&& (s@ == "in"@ ==> r == Ok::<Command, PunchClockError>(Command::In))
            &&& (s@ == "out"@ ==> r == Ok::<Command, PunchClockError>(Command::Out))
            &&& (s@ == "status"@ ==> r == Ok::<Command, PunchClockError>(Command::Status))
            &&& (s@ == "report"@ ==> r == Ok::<Command, PunchClockError>(Command::Report))
            &&& (s@ != "in"@ && s@ != "out"@ && s@ != "status"@ && s@ != "report"@ ==> r
                == Err::<Command, PunchClockError>(PunchClockError::UnknownCommand))
        },
{
    proof {
        lemma_command_words_distinct();
    }
    match arg {
        None => Err(PunchClockError::NoCommandGiven),
        Some(s) => {
            if *s == String::from_str("in") {
                Ok(Command::In)
            } else if *s == String::from_str("out") {
                Ok(Command::Out)
            } else if *s == String::from_str("status") {
                Ok(Command::Status)
            } else if *s == String::from_str("report") {
                Ok(Command::Report)
            } else {
                Err(PunchClockError::UnknownCommand)
            }
        },
    }
}

/// The four command words are pairwise distinct strings.
proof fn lemma_command_words_distinct()
    ensures
        "in"@ != "out"@,
        "in"@ != "status"@,
        "in"@ != "report"@,
        "out"@ != "status"@,
        "out"@ != "report"@,
        "status"@ != "report"@,
{
    reveal_strlit("in");
    reveal_strlit("out");
    reveal_strlit("status");
    reveal_strlit("report");
    assert("in"@.len() == 2);
    assert("out"@.len() == 3);
    assert("status"@.len() == 6);
    assert("report"@.len() == 6);
    assert("status"@[0] != "report"@[0]);
}

/// The status line for each working state.
pub open spec fn status_chars(working: bool) -> Seq<char> {
    if working {
        "You're punched in"@
    } else {
        "You're punched out"@
    }
}

/// The punch clock's state: whether the user is currently clocked in.
/// The caller persists this flag (as the marker file's existence) and the
/// records this type hands out (as the log's lines).
#[derive(Clone, Copy, Debug, PartialEq, Eq, Structural)]
pub struct TimeClock {
    pub currently_working: bool,
}

impl TimeClock {
    /// A clock in the given working state (as read back from the marker).
    pub fn new(currently_working: bool) -> (r: TimeClock)
        ensures
            r.currently_working == currently_working,
    {
        TimeClock { currently_working }
    }

    /// Punch in at `now`: refused while already working, with nothing to
    /// append and the state unchanged; otherwise the new `in:` record line
    /// to append, and the state becomes working.
    pub fn punch_in(&mut self, now: &Timestamp) -> (r: Result<String, PunchClockError>)
        requires
            now.wf(),
        ensures
            old(self).currently_working ==> r == Err::<String, PunchClockError>(
                PunchClockError::AlreadyPunchedIn,
            ) && *final(self) == *old(self),
            !old(self).currently_working ==> (r matches Ok(line) && line@ == record_chars(
                RecordKind::In,
                *now,
            )) && final(self).currently_working,
    {
        if self.currently_working {
            return Err(PunchClockError::AlreadyPunchedIn);
        }
        self.currently_working = true;
        Ok(render_record(RecordKind::In, now))
    }

    /// Punch out at `now`: refused while not working, with nothing to
    /// append and the state unchanged; otherwise the new `out:` record line
    /// to append, and the state stops being working.
    pub fn punch_out(&mut self, now: &Timestamp) -> (r: Result<String, PunchClockError>)
        requires
            now.wf(),
        ensures
            !old(self).currently_working ==> r == Err::<String, PunchClockError>(
                PunchClockError::AlreadyPunchedOut,
            ) && *final(self) == *old(self),
            old(self).currently_working ==> (r matches Ok(line) && line@ == record_chars(
                RecordKind::Out,
                *now,
            )) && !final(self).currently_working,
    {
        if !self.currently_working {
            return Err(PunchClockError::AlreadyPunchedOut);
        }
        self.currently_working = false;
        Ok(render_record(RecordKind::Out, now))
    }

    /// The status line for the current state. It takes the clock by shared
    /// reference and its result depends on the state alone, so repeated
    /// calls mutate nothing and always agree.
    pub fn status(&self) -> (r: String)
        ensures
            r@ == status_chars(self.currently_working),
    {
        if self.currently_working {
            String::from_str("You're punched in")
        } else {
            String::from_str("You're punched out")
        }
    }
}

} // verus!
