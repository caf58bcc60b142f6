//! The closed set of commands a caller may send to the daemon.
use vstd::prelude::*;
use vstd::string::StrSliceExecFns;

verus! {

/// A request from a caller. Commands carry no payload.
#[derive(Debug, Clone, Copy, PartialEq, Eq, Structural)]
pub enum Command {
    Pause,
    Resume,
    Show,
    Stop,
    Start,
    SkipBreak,
    Reset,
}

/// The command that a caller's text names, if it names one. Names are the
/// lower-case words `pause`, `resume`, `stop`, `show`, `start`, `skipbreak`
/// and `reset`, matched exactly.
pub open spec fn command_named(s: Seq<char>) -> Option<Command> {
    if s == "pause"@ {
        Some(Command::Pause)
    } else if s == "resume"@ {
        Some(Command::Resume)
    } else if s == "stop"@ {
        Some(Command::Stop)
    } else if s == "show"@ {
        Some(Command::Show)
    } else if s == "start"@ {
        Some(Command::Start)
    } else if s == "skipbreak"@ {
        Some(Command::SkipBreak)
    } else if s == "reset"@ {
        Some(Command::Reset)
    } else {
        None
    }
}

/// Whether two strings hold the same characters.
fn same_text(a: &str, b: &str) -> (r: bool)
    ensures
        r == (a@ == b@),
{
    let n = a.unicode_len();
    if n != b.unicode_len() {
        return false;
    }
    let mut i: usize = 0;
    while i < n
        invariant
            n == a@.len(),
            n == b@.len(),
            i <= n,
            a@.subrange(0, i as int) == b@.subrange(0, i as int),
        decreases n - i,
    {
        if a.get_char(i) != b.get_char(i) {
            assert(a@[i as int] != b@[i as int]);
            return false;
        }
        assert(a@.subrange(0, i + 1) == a@.subrange(0, i as int).push(a@[i as int]));
        assert(b@.subrange(0, i + 1) == b@.subrange(0, i as int).push(b@[i as int]));
        i = i + 1;
    }
    assert(a@ == a@.subrange(0, n as int));
    assert(b@ == b@.subrange(0, n as int));
    true
}

impl Command {
    /// Reads a command from its name; `None` for any other text.
    pub fn parse(input: &str) -> (r: Option<Command>)
        ensures
            r == command_named(input@),
    {
        if same_text(input, "pause") {
            Some(Command::Pause)
        } else if same_text(input, "resume") {
            Some(Command::Resume)
        } else if same_text(input, "stop") {
            Some(Command::Stop)
        } else if same_text(input, "show") {
            Some(Command::Show)
        } else if same_text(input, "start") {
            Some(Command::Start)
        } else if same_text(input, "skipbreak") {
            Some(Command::SkipBreak)
        } else if same_text(input, "reset") {
            Some(Command::Reset)
        } else {
            None
        }
    }
}

impl std::str::FromStr for Command {
    type Err = ();

    /// Reads a command from its name, as `Command::parse` does.
    fn from_str(input: &str) -> (r: Result<Command, ()>)
        ensures
            r == match command_named(input@) {
                Some(c) => Ok::<Command, ()>(c),
                None => Err::<Command, ()>(()),
            },
    {
        match Command::parse(input) {
            Some(command) => Ok(command),
            None => Err(()),
        }
    }
}

} // verus!
