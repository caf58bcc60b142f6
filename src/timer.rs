//! The timer state machine: commands, ticks and the automatic transitions
//! that fire when a phase runs out. Every duration is a count of seconds.
use vstd::prelude::*;

use crate::command::Command;

verus! {

/// Number of work intervals after which the next break is a long one.
pub const SET: u64 = 4;

/// Length of a work interval: 25 minutes.
pub const TIMER_LENGTH_IN_SECONDS: u64 = 25 * 60;

/// Length of a short break: 5 minutes.
pub const SHORT_BREAK_LENGTH_IN_SECONDS: u64 = 5 * 60;

/// Length of a long break: 15 minutes.
pub const LONG_BREAK_LENGTH_IN_SECONDS: u64 = 15 * 60;

/// The phase a timer is in. `duration` is the number of seconds spent in the
/// phase so far.
#[derive(Debug, Clone, Copy, PartialEq, Eq, Structural)]
pub enum State {
    Paused { duration: u64 },
    Stopped,
    Working { duration: u64 },
    TakingShortBreak { duration: u64 },
    TakingLongBreak { duration: u64 },
}

/// The whole timer: its phase and two running counters.
#[derive(Debug, Clone, Copy, PartialEq, Eq, Structural)]
pub struct Pomodoro {
    pub state: State,
    /// Work intervals completed since the last reset.
    pub completed_count: u64,
    /// Breaks taken (or skipped) since the last reset.
    pub break_count: u64,
}

/// The timer a command leaves behind.
pub open spec fn command_result(cmd: Command, p: Pomodoro) -> Pomodoro {
    match cmd {
        Command::Pause => match p.state {
            State::Working { duration } => Pomodoro { state: State::Paused { duration }, ..p },
            _ => p,
        },
        Command::Resume => match p.state {
            State::Paused { duration } => Pomodoro { state: State::Working { duration }, ..p },
            _ => p,
        },
        Command::Stop => Pomodoro { state: State::Stopped, ..p },
        Command::Start => Pomodoro { state: State::Working { duration: 0 }, ..p },
        Command::SkipBreak => Pomodoro {
            state: State::Stopped,
            break_count: (p.break_count + 1) as u64,
            ..p
        },
        Command::Reset => Pomodoro { state: State::Stopped, completed_count: 0, break_count: 0 },
        Command::Show => p,
    }
}

/// A command can be applied without a counter leaving the range of `u64`.
pub open spec fn command_fits(cmd: Command, p: Pomodoro) -> bool {
    cmd == Command::SkipBreak ==> p.break_count < u64::MAX
}

/// Applies one command. A command that does not fit the current phase
/// (pausing a timer that is not working, resuming one that is not paused)
/// leaves the timer as it is.
pub fn do_command(cmd: Command, pomodoro: Pomodoro) -> (r: Pomodoro)
    requires
        command_fits(cmd, pomodoro),
    ensures
        r == command_result(cmd, pomodoro),
{
    match cmd {
        Command::Pause => {
            if let State::Working { duration } = pomodoro.state {
                Pomodoro { state: State::Paused { duration }, ..pomodoro }
            } else {
                pomodoro
            }
        },
        Command::Resume => {
            if let State::Paused { duration } = pomodoro.state {
                Pomodoro { state: State::Working { duration }, ..pomodoro }
            } else {
                pomodoro
            }
        },
        Command::Stop => Pomodoro { state: State::Stopped, ..pomodoro },
        Command::Start => Pomodoro { state: State::Working { duration: 0 }, ..pomodoro },
        Command::SkipBreak => Pomodoro {
            state: State::Stopped,
            break_count: pomodoro.break_count + 1,
            ..pomodoro
        },
        Command::Reset => Pomodoro { state: State::Stopped, completed_count: 0, break_count: 0 },
        Command::Show => pomodoro,
    }
}

/// The timer one second later: an active phase (work or a break) gains a
/// second; a paused or stopped timer stays as it is.
pub open spec fn tick_result(p: Pomodoro) -> Pomodoro {
    match p.state {
        State::Working { duration } => Pomodoro {
            state: State::Working { duration: (duration + 1) as u64 },
            ..p
        },
        State::TakingShortBreak { duration } => Pomodoro {
            state: State::TakingShortBreak { duration: (duration + 1) as u64 },
            ..p
        },
        State::TakingLongBreak { duration } => Pomodoro {
            state: State::TakingLongBreak { duration: (duration + 1) as u64 },
            ..p
        },
        _ => p,
    }
}

/// A tick can be applied without the elapsed time leaving the range of `u64`.
pub open spec fn tick_fits(p: Pomodoro) -> bool {
    match p.state {
        State::Working { duration } => duration < u64::MAX,
        State::TakingShortBreak { duration } => duration < u64::MAX,
        State::TakingLongBreak { duration } => duration < u64::MAX,
        _ => true,
    }
}

/// Advances an active phase by one second.
pub fn maybe_tick(pomodoro: Pomodoro) -> (r: Pomodoro)
    requires
        tick_fits(pomodoro),
    ensures
        r == tick_result(pomodoro),
{
    match pomodoro.state {
        State::Working { duration } => Pomodoro {
            state: State::Working { duration: duration + 1 },
            ..pomodoro
        },
        State::TakingShortBreak { duration } => Pomodoro {
            state: State::TakingShortBreak { duration: duration + 1 },
            ..pomodoro
        },
        State::TakingLongBreak { duration } => Pomodoro {
            state: State::TakingLongBreak { duration: duration + 1 },
            ..pomodoro
        },
        _ => pomodoro,
    }
}

/// The timer after the automatic transition that the current phase calls
/// for, if any. A phase runs out exactly when its elapsed time equals its
/// length:
/// - work ends with one more completed interval and a break, which is long
///   when `break_count` equals `SET` and short otherwise;
/// - a short break ends with one more break counted and work starting anew;
/// - a long break ends with one more break counted and the timer stopped.
///
/// `break_count` is never set back to zero here: only `Reset` does that.
pub open spec fn next_result(p: Pomodoro) -> Pomodoro {
    match p.state {
        State::Working { duration } => if duration == TIMER_LENGTH_IN_SECONDS {
            Pomodoro {
                state: if p.break_count == SET {
                    State::TakingLongBreak { duration: 0 }
                } else {
                    State::TakingShortBreak { duration: 0 }
                },
                completed_count: (p.completed_count + 1) as u64,
                ..p
            }
        } else {
            p
        },
        State::TakingShortBreak { duration } => if duration == SHORT_BREAK_LENGTH_IN_SECONDS {
            Pomodoro {
                state: State::Working { duration: 0 },
                break_count: (p.break_count + 1) as u64,
                ..p
            }
        } else {
            p
        },
        State::TakingLongBreak { duration } => if duration == LONG_BREAK_LENGTH_IN_SECONDS {
            Pomodoro { state: State::Stopped, break_count: (p.break_count + 1) as u64, ..p }
        } else {
            p
        },
        _ => p,
    }
}

/// The automatic transition can be made without a counter leaving the range
/// of `u64`.
pub open spec fn next_fits(p: Pomodoro) -> bool {
    match p.state {
        State::Working { duration } => duration == TIMER_LENGTH_IN_SECONDS ==> p.completed_count
            < u64::MAX,
        State::TakingShortBreak { duration } => duration == SHORT_BREAK_LENGTH_IN_SECONDS
            ==> p.break_count < u64::MAX,
        State::TakingLongBreak { duration } => duration == LONG_BREAK_LENGTH_IN_SECONDS
            ==> p.break_count < u64::MAX,
        _ => true,
    }
}

/// Makes the automatic transition that the current phase calls for, if any.
pub fn do_next(pomodoro: Pomodoro) -> (r: Pomodoro)
    requires
        next_fits(pomodoro),
    ensures
        r == next_result(pomodoro),
{
    match pomodoro.state {
        State::Working { duration } => {
            if duration == TIMER_LENGTH_IN_SECONDS {
                let completed_count = pomodoro.completed_count + 1;
                let state = if pomodoro.break_count == SET {
                    State::TakingLongBreak { duration: 0 }
                } else {
                    State::TakingShortBreak { duration: 0 }
                };
                Pomodoro { state, completed_count, ..pomodoro }
            } else {
                pomodoro
            }
        },
        State::TakingShortBreak { duration } => {
            if duration == SHORT_BREAK_LENGTH_IN_SECONDS {
                let break_count = pomodoro.break_count + 1;
                Pomodoro { state: State::Working { duration: 0 }, break_count, ..pomodoro }
            } else {
                pomodoro
            }
        },
        State::TakingLongBreak { duration } => {
            if duration == LONG_BREAK_LENGTH_IN_SECONDS {
                let break_count = pomodoro.break_count + 1;
                Pomodoro { state: State::Stopped, break_count, ..pomodoro }
            } else {
                pomodoro
            }
        },
        _ => pomodoro,
    }
}

/// Every elapsed time lies below the length of its phase (a paused timer
/// counts against the work length). This holds between any two cycles of
/// the daemon, so no elapsed time ever exceeds the length of its phase.
pub open spec fn well_formed(p: Pomodoro) -> bool {
    match p.state {
        State::Paused { duration } => duration < TIMER_LENGTH_IN_SECONDS,
        State::Working { duration } => duration < TIMER_LENGTH_IN_SECONDS,
        State::TakingShortBreak { duration } => duration < SHORT_BREAK_LENGTH_IN_SECONDS,
        State::TakingLongBreak { duration } => duration < LONG_BREAK_LENGTH_IN_SECONDS,
        State::Stopped => true,
    }
}

/// The timer as the daemon creates it: stopped, with both counters at zero.
pub open spec fn initial() -> Pomodoro {
    Pomodoro { state: State::Stopped, completed_count: 0, break_count: 0 }
}

impl Pomodoro {
    /// A stopped timer with both counters at zero.
    pub fn new() -> (r: Pomodoro)
        ensures
            r == initial(),
            well_formed(r),
    {
        Pomodoro { state: State::Stopped, completed_count: 0, break_count: 0 }
    }
}

} // verus!
