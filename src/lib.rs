//! A pomodoro timer: the state machine that a daemon drives once per second,
//! the commands a caller may send it, and the replies it gives back.

pub mod command;
pub mod daemon;
pub mod laws;
pub mod protocol;
pub mod timer;

pub use command::Command;
pub use daemon::{can_run_cycle, run_cycle};
pub use protocol::{respond, CommandResult, Output, Response};
pub use timer::{do_command, do_next, maybe_tick, Pomodoro, State};
