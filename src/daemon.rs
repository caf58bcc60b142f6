//! One cycle of the daemon: at most one command, then a tick, then the
//! automatic transition, in that order.
use vstd::prelude::*;

use crate::command::Command;
use crate::protocol::CommandResult;
use crate::timer::{
    command_fits, command_result, do_command, do_next, maybe_tick, next_fits, next_result,
    tick_fits, tick_result, Pomodoro, State, LONG_BREAK_LENGTH_IN_SECONDS,
    SHORT_BREAK_LENGTH_IN_SECONDS, TIMER_LENGTH_IN_SECONDS,
};

verus! {

/// The timer after a command, if one arrived.
pub open spec fn after_command(p: Pomodoro, received: Option<Command>) -> Pomodoro {
    match received {
        Some(cmd) => command_result(cmd, p),
        None => p,
    }
}

/// The timer at the end of a cycle: the command that arrived, if any, is
/// applied first, then the tick, then the automatic transition.
pub open spec fn cycle_result(p: Pomodoro, received: Option<Command>) -> Pomodoro {
    next_result(tick_result(after_command(p, received)))
}

/// Every step of the cycle keeps its counters and elapsed time within `u64`.
pub open spec fn cycle_fits(p: Pomodoro, received: Option<Command>) -> bool {
    &&& (received matches Some(cmd) ==> command_fits(cmd, p))
    &&& tick_fits(after_command(p, received))
    &&& next_fits(tick_result(after_command(p, received)))
}

/// Whether a cycle can run on `pomodoro` with `received`, that is, whether
/// `run_cycle` may be called.
pub fn can_run_cycle(pomodoro: &Pomodoro, received: Option<Command>) -> (r: bool)
    ensures
        r == cycle_fits(*pomodoro, received),
{
    let current = match received {
        Some(cmd) => {
            if cmd == Command::SkipBreak && pomodoro.break_count == u64::MAX {
                return false;
            }
            do_command(cmd, *pomodoro)
        },
        None => *pomodoro,
    };
    let tick_ok = match current.state {
        State::Working { duration } => duration < u64::MAX,
        State::TakingShortBreak { duration } => duration < u64::MAX,
        State::TakingLongBreak { duration } => duration < u64::MAX,
        _ => true,
    };
    if !tick_ok {
        return false;
    }
    let ticked = maybe_tick(current);
    match ticked.state {
        State::Working { duration } => duration != TIMER_LENGTH_IN_SECONDS
            || ticked.completed_count < u64::MAX,
        State::TakingShortBreak { duration } => duration != SHORT_BREAK_LENGTH_IN_SECONDS
            || ticked.break_count < u64::MAX,
        State::TakingLongBreak { duration } => duration != LONG_BREAK_LENGTH_IN_SECONDS
            || ticked.break_count < u64::MAX,
        _ => true,
    }
}

/// Runs one cycle on the daemon's timer. A result comes back only when a
/// command arrived in this cycle, and it carries the timer as the cycle
/// leaves it.
pub fn run_cycle(pomodoro: &mut Pomodoro, received: Option<Command>) -> (reply: Option<
    CommandResult,
>)
    requires
        cycle_fits(*old(pomodoro), received),
    ensures
        *final(pomodoro) == cycle_result(*old(pomodoro), received),
        reply == match received {
            Some(_) => Some(CommandResult::Success(*final(pomodoro))),
            None => None::<CommandResult>,
        },
{
    let current = match received {
        Some(cmd) => do_command(cmd, *pomodoro),
        None => *pomodoro,
    };
    let ticked = maybe_tick(current);
    *pomodoro = do_next(ticked);
    match received {
        Some(_) => Some(CommandResult::Success(*pomodoro)),
        None => None,
    }
}

} // verus!
