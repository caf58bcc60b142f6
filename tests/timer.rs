use pomodoro::timer::{
    LONG_BREAK_LENGTH_IN_SECONDS, SET, SHORT_BREAK_LENGTH_IN_SECONDS, TIMER_LENGTH_IN_SECONDS,
};
use pomodoro::{do_command, do_next, maybe_tick, Command, Pomodoro, State};

fn timer(state: State, completed_count: u64, break_count: u64) -> Pomodoro {
    Pomodoro { state, completed_count, break_count }
}

fn all_phases() -> Vec<State> {
    vec![
        State::Stopped,
        State::Paused { duration: 7 },
        State::Working { duration: 7 },
        State::TakingShortBreak { duration: 7 },
        State::TakingLongBreak { duration: 7 },
    ]
}

#[test]
fn lengths_are_fixed() {
    assert_eq!(TIMER_LENGTH_IN_SECONDS, 1500);
    assert_eq!(SHORT_BREAK_LENGTH_IN_SECONDS, 300);
    assert_eq!(LONG_BREAK_LENGTH_IN_SECONDS, 900);
    assert_eq!(SET, 4);
}

#[test]
fn new_timer_is_stopped_and_cleared() {
    assert_eq!(Pomodoro::new(), timer(State::Stopped, 0, 0));
}

#[test]
fn pause_only_acts_on_work() {
    for state in all_phases() {
        let t = timer(state, 3, 2);
        let r = do_command(Command::Pause, t);
        match state {
            State::Working { duration } => {
                assert_eq!(r, timer(State::Paused { duration }, 3, 2))
            }
            _ => assert_eq!(r, t),
        }
    }
}

#[test]
fn resume_only_acts_on_pause() {
    for state in all_phases() {
        let t = timer(state, 3, 2);
        let r = do_command(Command::Resume, t);
        match state {
            State::Paused { duration } => {
                assert_eq!(r, timer(State::Working { duration }, 3, 2))
            }
            _ => assert_eq!(r, t),
        }
    }
}

#[test]
fn reset_clears_from_any_phase() {
    for state in all_phases() {
        let r = do_command(Command::Reset, timer(state, 9, 11));
        assert_eq!(r, timer(State::Stopped, 0, 0));
    }
}

#[test]
fn show_changes_nothing() {
    for state in all_phases() {
        let t = timer(state, 5, 6);
        assert_eq!(do_command(Command::Show, t), t);
    }
}

#[test]
fn stop_keeps_counters() {
    for state in all_phases() {
        assert_eq!(do_command(Command::Stop, timer(state, 5, 6)), timer(State::Stopped, 5, 6));
    }
}

#[test]
fn start_overrides_any_phase() {
    for state in all_phases() {
        assert_eq!(
            do_command(Command::Start, timer(state, 5, 6)),
            timer(State::Working { duration: 0 }, 5, 6)
        );
    }
}

#[test]
fn skip_break_counts_a_break() {
    let t = timer(State::TakingShortBreak { duration: 10 }, 2, 1);
    assert_eq!(do_command(Command::SkipBreak, t), timer(State::Stopped, 2, 2));
}

#[test]
fn tick_leaves_stopped_and_paused() {
    let stopped = timer(State::Stopped, 1, 1);
    let paused = timer(State::Paused { duration: 42 }, 1, 1);
    assert_eq!(maybe_tick(stopped), stopped);
    assert_eq!(maybe_tick(paused), paused);
}

#[test]
fn tick_advances_active_phases() {
    assert_eq!(
        maybe_tick(timer(State::Working { duration: 42 }, 1, 2)),
        timer(State::Working { duration: 43 }, 1, 2)
    );
    assert_eq!(
        maybe_tick(timer(State::TakingShortBreak { duration: 0 }, 1, 2)),
        timer(State::TakingShortBreak { duration: 1 }, 1, 2)
    );
    assert_eq!(
        maybe_tick(timer(State::TakingLongBreak { duration: 899 }, 1, 2)),
        timer(State::TakingLongBreak { duration: 900 }, 1, 2)
    );
}

#[test]
fn next_does_nothing_before_the_end() {
    for state in all_phases() {
        let t = timer(state, 1, 1);
        assert_eq!(do_next(t), t);
    }
    let almost = timer(State::Working { duration: 1499 }, 0, 0);
    assert_eq!(do_next(almost), almost);
}

#[test]
fn next_does_not_fire_past_the_end() {
    let past = timer(State::Working { duration: 1501 }, 0, 0);
    assert_eq!(do_next(past), past);
}

#[test]
fn work_end_after_tick_gives_short_break() {
    let t = timer(State::Working { duration: 1499 }, 2, 3);
    assert_eq!(
        do_next(maybe_tick(t)),
        timer(State::TakingShortBreak { duration: 0 }, 3, 3)
    );
}

#[test]
fn work_end_after_tick_gives_long_break_after_a_set() {
    let t = timer(State::Working { duration: 1499 }, 4, 4);
    assert_eq!(
        do_next(maybe_tick(t)),
        timer(State::TakingLongBreak { duration: 0 }, 5, 4)
    );
}

#[test]
fn start_then_a_full_work_interval() {
    let mut t = do_command(Command::Start, timer(State::Stopped, 0, 0));
    assert_eq!(t, timer(State::Working { duration: 0 }, 0, 0));
    for second in 1..1500u64 {
        t = do_next(maybe_tick(t));
        assert_eq!(t, timer(State::Working { duration: second }, 0, 0));
    }
    t = do_next(maybe_tick(t));
    assert_eq!(t, timer(State::TakingShortBreak { duration: 0 }, 1, 0));
}

#[test]
fn short_break_end_resumes_work() {
    let t = timer(State::TakingShortBreak { duration: 299 }, 1, 0);
    assert_eq!(
        do_next(maybe_tick(t)),
        timer(State::Working { duration: 0 }, 1, 1)
    );
}

#[test]
fn fourth_break_boundary_routes_to_long_break() {
    let at_end = timer(State::Working { duration: 1500 }, 4, 4);
    assert_eq!(do_next(at_end), timer(State::TakingLongBreak { duration: 0 }, 5, 4));
    let before = timer(State::Working { duration: 1500 }, 3, 3);
    assert_eq!(do_next(before), timer(State::TakingShortBreak { duration: 0 }, 4, 3));
}

#[test]
fn long_break_end_stops_and_counts() {
    let t = timer(State::TakingLongBreak { duration: 900 }, 5, 4);
    assert_eq!(do_next(t), timer(State::Stopped, 5, 5));
}

#[test]
fn later_work_ends_give_short_breaks_again() {
    let t = timer(State::Working { duration: 1500 }, 5, 5);
    assert_eq!(do_next(t), timer(State::TakingShortBreak { duration: 0 }, 6, 5));
}
