//! What the daemon hands back for a command, and the reply a listener sends
//! to the caller.
use vstd::prelude::*;

use crate::command::Command;
use crate::timer::Pomodoro;

verus! {

/// What the daemon hands back for one command: the timer after the command
/// and the cycle it arrived in, or a bare failure when the command could not
/// be passed on or answered.
#[derive(Debug, Clone, Copy, PartialEq, Eq, Structural)]
pub enum CommandResult {
    Success(Pomodoro),
    Failure,
}

/// Whether a command went through.
#[derive(Debug, Clone, Copy, PartialEq, Eq, Structural)]
pub enum Output {
    Success,
    Failure,
}

/// The reply a listener sends to the caller: the command it answers, whether
/// it went through and, if it did, the timer.
#[derive(Debug, Clone, Copy, PartialEq, Eq, Structural)]
pub struct Response {
    pub command: Command,
    pub result: Output,
    pub pomodoro: Option<Pomodoro>,
}

/// The reply to `command`, given what came back from the daemon: `None`
/// when nothing came back (the channel to or from the daemon is broken).
pub open spec fn response_to(command: Command, outcome: Option<CommandResult>) -> Response {
    match outcome {
        Some(CommandResult::Success(p)) => Response {
            command,
            result: Output::Success,
            pomodoro: Some(p),
        },
        _ => Response { command, result: Output::Failure, pomodoro: None },
    }
}

/// Builds the reply to `command` from what came back from the daemon. A
/// success carries the timer; a failure, or no answer at all, carries none.
pub fn respond(command: Command, outcome: Option<CommandResult>) -> (r: Response)
    ensures
        r == response_to(command, outcome),
{
    match outcome {
        Some(CommandResult::Success(pomodoro)) => Response {
            command,
            result: Output::Success,
            pomodoro: Some(pomodoro),
        },
        _ => Response { command, result: Output::Failure, pomodoro: None },
    }
}

} // verus!
