//! Properties of the timer that hold across all inputs.
use vstd::prelude::*;

use crate::command::{command_named, Command};
use crate::daemon::{cycle_fits, cycle_result};
use crate::timer::{
    command_result, initial, tick_result, well_formed, Pomodoro, State, SET,
    TIMER_LENGTH_IN_SECONDS,
};

verus! {

/// Pausing a timer that is not working changes nothing, and neither does
/// resuming one that is not paused.
pub proof fn lemma_pause_resume_out_of_phase(p: Pomodoro)
    ensures
        !(p.state is Working) ==> command_result(Command::Pause, p) == p,
        !(p.state is Paused) ==> command_result(Command::Resume, p) == p,
{
}

/// A reset stops the timer and sets both counters to zero, whatever the
/// timer was before.
pub proof fn lemma_reset_clears(p: Pomodoro)
    ensures
        command_result(Command::Reset, p).state == State::Stopped,
        command_result(Command::Reset, p).completed_count == 0,
        command_result(Command::Reset, p).break_count == 0,
        command_result(Command::Reset, p) == initial(),
{
}

/// A tick leaves a stopped or paused timer as it is, and adds one second to
/// a working one.
pub proof fn lemma_tick_phases(p: Pomodoro)
    ensures
        p.state is Stopped ==> tick_result(p) == p,
        p.state is Paused ==> tick_result(p) == p,
        p.state matches State::Working { duration } ==> (duration < u64::MAX ==> tick_result(p)
            == (Pomodoro { state: State::Working { duration: (duration + 1) as u64 }, ..p })),
{
}

/// A cycle without a command that starts one second before the end of a work
/// interval ticks first and then ends the interval: one more interval is
/// completed and a break begins, long when `break_count` equals `SET`, short
/// otherwise.
pub proof fn lemma_work_ends_after_tick(p: Pomodoro)
    requires
        p.state == (State::Working { duration: (TIMER_LENGTH_IN_SECONDS - 1) as u64 }),
        p.completed_count < u64::MAX,
    ensures
        cycle_fits(p, None),
        cycle_result(p, None) == (Pomodoro {
            state: if p.break_count == SET {
                State::TakingLongBreak { duration: 0 }
            } else {
                State::TakingShortBreak { duration: 0 }
            },
            completed_count: (p.completed_count + 1) as u64,
            break_count: p.break_count,
        }),
{
}

/// No two texts name the same command: each command has exactly one name.
pub proof fn lemma_names_distinct(a: Seq<char>, b: Seq<char>)
    requires
        command_named(a) is Some,
        command_named(a) == command_named(b),
    ensures
        a == b,
{
}

/// Every command has a name.
pub proof fn lemma_every_command_named(c: Command)
    ensures
        exists|s: Seq<char>| command_named(s) == Some(c),
{
    reveal_strlit("pause");
    reveal_strlit("resume");
    reveal_strlit("stop");
    reveal_strlit("show");
    reveal_strlit("start");
    reveal_strlit("skipbreak");
    reveal_strlit("reset");
    assert("pause"@.len() == 5 && "resume"@.len() == 6 && "stop"@.len() == 4);
    assert("show"@.len() == 4 && "start"@.len() == 5 && "skipbreak"@.len() == 9);
    assert("stop"@[1] != "show"@[1]);
    assert("pause"@[0] != "start"@[0]);
    match c {
        Command::Pause => assert(command_named("pause"@) == Some(c)),
        Command::Resume => assert(command_named("resume"@) == Some(c)),
        Command::Stop => assert(command_named("stop"@) == Some(c)),
        Command::Show => assert(command_named("show"@) == Some(c)),
        Command::Start => assert(command_named("start"@) == Some(c)),
        Command::SkipBreak => assert(command_named("skipbreak"@) == Some(c)),
        Command::Reset => assert(command_named("reset"@) == Some(c)),
    }
}

/// `Show` leaves every timer as it is.
pub proof fn lemma_show_keeps(p: Pomodoro)
    ensures
        command_result(Command::Show, p) == p,
{
}

/// The daemon's first timer is well formed, and a cycle keeps a timer well
/// formed whatever command arrives, as long as neither counter is at the top
/// of its range.
pub proof fn lemma_cycle_keeps_well_formed(p: Pomodoro, received: Option<Command>)
    requires
        well_formed(p),
        p.completed_count < u64::MAX,
        p.break_count < u64::MAX,
    ensures
        well_formed(initial()),
        cycle_fits(p, received),
        well_formed(cycle_result(p, received)),
{
}

} // verus!
