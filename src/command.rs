//! The debugger commands that a session sends, with the text of each and the
//! collection policy and timeout that its reply is awaited under.

use crate::text::{decimal_text, decimal_text_of};
use vstd::prelude::*;
use vstd::string::StringExecFns;

verus! {

/// How the reply to a request is collected.
#[derive(Debug, Clone, Copy, PartialEq, Eq, Structural)]
pub enum CollectionPolicy {
    /// Collect until this many lines have come (or the timeout, or a closed stream).
    Exactly(usize),
    /// Fire and forget: nothing is read.
    NoneExpected,
    /// Collect every line until the timeout elapses or a stream closes.
    Unbounded,
}

/// The policy asks for no line at all, so the reply is not awaited.
pub open spec fn wants_nothing(p: CollectionPolicy) -> bool {
    p == CollectionPolicy::NoneExpected || p == CollectionPolicy::Exactly(0)
}

/// Under this policy, `n` collected lines complete the reply.
pub open spec fn count_reached(p: CollectionPolicy, n: nat) -> bool {
    match p {
        CollectionPolicy::Exactly(k) => n >= k,
        CollectionPolicy::NoneExpected => true,
        CollectionPolicy::Unbounded => false,
    }
}

impl CollectionPolicy {
    /// The policy for an expected line count: every line until the timeout
    /// where none is given, nothing where it is zero, else exactly that many.
    pub fn from_expected_count(expected_count: Option<usize>) -> (r: CollectionPolicy)
        ensures
            r == (match expected_count {
                None => CollectionPolicy::Unbounded,
                Some(n) => if n == 0 {
                    CollectionPolicy::NoneExpected
                } else {
                    CollectionPolicy::Exactly(n)
                },
            }),
    {
        match expected_count {
            None => CollectionPolicy::Unbounded,
            Some(n) => if n == 0 {
                CollectionPolicy::NoneExpected
            } else {
                CollectionPolicy::Exactly(n)
            },
        }
    }

    /// Whether a reply is awaited at all after the request is sent.
    pub fn expects_response(&self) -> (r: bool)
        ensures
            r == !wants_nothing(*self),
    {
        match self {
            CollectionPolicy::Exactly(n) => *n != 0,
            CollectionPolicy::NoneExpected => false,
            CollectionPolicy::Unbounded => true,
        }
    }
}

/// How long the output that the debugger prints on start-up is drained, in
/// milliseconds.
pub const STARTUP_DRAIN_MS: u64 = 250;

/// A command of the debugger's console.
#[derive(Debug, Clone, PartialEq, Eq)]
pub enum GdbCommand {
    /// `set confirm off`: no interactive confirmation prompts.
    ConfirmOff,
    /// `target remote <server>`: attach to the remote debug server.
    TargetRemote { server: String },
    /// `monitor reset`: reset the target.
    MonitorReset,
    /// `break <function>`: set a breakpoint.
    Break { function: String },
    /// `continue`: resume the target.
    Continue,
    /// `monitor halt`: halt the target.
    MonitorHalt,
    /// `monitor sleep <millis>`: let the debug server sleep.
    MonitorSleep { millis: u32 },
    /// `call <function>(<args>)`: run a function on the target.
    Call { function: String, args: Vec<u64>, has_return: bool },
    /// `print <variable>`: show a variable of the target.
    Print { variable: String },
    /// `restore <path> binary <buffer>`: write a local file into a RAM buffer.
    Restore { path: String, buffer: String },
    /// `help`.
    Help,
    /// `quit`: end the debugger.
    Quit,
}

/// The arguments of a call, in decimal and separated by `, `.
pub open spec fn call_args_text(args: Seq<u64>) -> Seq<char>
    decreases args.len(),
{
    if args.len() == 0 {
        Seq::empty()
    } else if args.len() == 1 {
        decimal_text_of(args[0] as nat)
    } else {
        call_args_text(args.drop_last()) + ", "@ + decimal_text_of(args.last() as nat)
    }
}

/// The line of console text that a command is sent as, without its newline.
pub open spec fn command_text(c: GdbCommand) -> Seq<char> {
    match c {
        GdbCommand::ConfirmOff => "set confirm off"@,
        GdbCommand::TargetRemote { server } => "target remote "@ + server@,
        GdbCommand::MonitorReset => "monitor reset"@,
        GdbCommand::Break { function } => "break "@ + function@,
        GdbCommand::Continue => "continue"@,
        GdbCommand::MonitorHalt => "monitor halt"@,
        GdbCommand::MonitorSleep { millis } => "monitor sleep "@ + decimal_text_of(millis as nat),
        GdbCommand::Call { function, args, .. } => "call "@ + function@ + "("@ + call_args_text(
            args@,
        ) + ")"@,
        GdbCommand::Print { variable } => "print "@ + variable@,
        GdbCommand::Restore { path, buffer } => "restore "@ + path@ + " binary "@ + buffer@,
        GdbCommand::Help => "help"@,
        GdbCommand::Quit => "quit"@,
    }
}

/// How the reply to each command is collected. A reset answers with one
/// line (on the error stream), a breakpoint, a sleep, a print and a memory
/// write with one line each; resuming may or may not report a breakpoint, so
/// it is collected until the timeout, as are attaching and help; a call
/// answers with one line where it returns a value; the rest answer nothing.
pub open spec fn command_policy(c: GdbCommand) -> CollectionPolicy {
    match c {
        GdbCommand::ConfirmOff => CollectionPolicy::NoneExpected,
        GdbCommand::TargetRemote { .. } => CollectionPolicy::Unbounded,
        GdbCommand::MonitorReset => CollectionPolicy::Exactly(1),
        GdbCommand::Break { .. } => CollectionPolicy::Exactly(1),
        GdbCommand::Continue => CollectionPolicy::Unbounded,
        GdbCommand::MonitorHalt => CollectionPolicy::NoneExpected,
        GdbCommand::MonitorSleep { .. } => CollectionPolicy::Exactly(1),
        GdbCommand::Call { has_return, .. } => if has_return {
            CollectionPolicy::Exactly(1)
        } else {
            CollectionPolicy::Unbounded
        },
        GdbCommand::Print { .. } => CollectionPolicy::Exactly(1),
        GdbCommand::Restore { .. } => CollectionPolicy::Exactly(1),
        GdbCommand::Help => CollectionPolicy::Unbounded,
        GdbCommand::Quit => CollectionPolicy::NoneExpected,
    }
}

/// How long the reply to each command is awaited, in milliseconds.
pub open spec fn command_timeout_ms(c: GdbCommand) -> nat {
    match c {
        GdbCommand::ConfirmOff => 0,
        GdbCommand::TargetRemote { .. } => 500,
        GdbCommand::MonitorReset => 250,
        GdbCommand::Break { .. } => 750,
        GdbCommand::Continue => 750,
        GdbCommand::MonitorHalt => 0,
        GdbCommand::MonitorSleep { millis } => (millis + 250) as nat,
        GdbCommand::Call { .. } => 250,
        GdbCommand::Print { .. } => 250,
        GdbCommand::Restore { .. } => 1000,
        GdbCommand::Help => 500,
        GdbCommand::Quit => 0,
    }
}

fn call_args_string(args: &Vec<u64>) -> (r: String)
    ensures
        r@ == call_args_text(args@),
{
    let mut r = String::new();
    let mut i: usize = 0;
    while i < args.len()
        invariant
            i <= args@.len(),
            r@ == call_args_text(args@.take(i as int)),
        decreases args@.len() - i,
    {
        proof {
            assert(args@.take(i + 1).drop_last() == args@.take(i as int));
        }
        if i > 0 {
            r.append(", ");
        }
        let d = decimal_text(args[i]);
        r.append(d.as_str());
        proof {
            if i == 0 {
                assert(args@.take(i + 1).len() == 1);
            }
        }
        i = i + 1;
    }
    proof {
        assert(args@.take(args@.len() as int) == args@);
    }
    r
}

impl GdbCommand {
    /// The console text of the command, without its newline.
    pub fn text(&self) -> (r: String)
        ensures
            r@ == command_text(*self),
    {
        match self {
            GdbCommand::ConfirmOff => String::from_str("set confirm off"),
            GdbCommand::TargetRemote { server } => {
                let mut r = String::from_str("target remote ");
                r.append(server.as_str());
                r
            },
            GdbCommand::MonitorReset => String::from_str("monitor reset"),
            GdbCommand::Break { function } => {
                let mut r = String::from_str("break ");
                r.append(function.as_str());
                r
            },
            GdbCommand::Continue => String::from_str("continue"),
            GdbCommand::MonitorHalt => String::from_str("monitor halt"),
            GdbCommand::MonitorSleep { millis } => {
                let mut r = String::from_str("monitor sleep ");
                let d = decimal_text(*millis as u64);
                r.append(d.as_str());
                r
            },
            GdbCommand::Call { function, args, .. } => {
                let mut r = String::from_str("call ");
                r.append(function.as_str());
                r.append("(");
                let a = call_args_string(args);
                r.append(a.as_str());
                r.append(")");
                r
            },
            GdbCommand::Print { variable } => {
                let mut r = String::from_str("print ");
                r.append(variable.as_str());
                r
            },
            GdbCommand::Restore { path, buffer } => {
                let mut r = String::from_str("restore ");
                r.append(path.as_str());
                r.append(" binary ");
                r.append(buffer.as_str());
                r
            },
            GdbCommand::Help => String::from_str("help"),
            GdbCommand::Quit => String::from_str("quit"),
        }
    }

    /// The line that is written to the debugger's input: the text and a newline.
    pub fn request_line(&self) -> (r: String)
        ensures
            r@ == command_text(*self) + "\n"@,
    {
        let mut r = self.text();
        r.append("\n");
        r
    }

    /// How the reply to the command is collected.
    pub fn policy(&self) -> (r: CollectionPolicy)
        ensures
            r == command_policy(*self),
    {
        match self {
            GdbCommand::ConfirmOff => CollectionPolicy::NoneExpected,
            GdbCommand::TargetRemote { .. } => CollectionPolicy::Unbounded,
            GdbCommand::MonitorReset => CollectionPolicy::Exactly(1),
            GdbCommand::Break { .. } => CollectionPolicy::Exactly(1),
            GdbCommand::Continue => CollectionPolicy::Unbounded,
            GdbCommand::MonitorHalt => CollectionPolicy::NoneExpected,
            GdbCommand::MonitorSleep { .. } => CollectionPolicy::Exactly(1),
            GdbCommand::Call { has_return, .. } => if *has_return {
                CollectionPolicy::Exactly(1)
            } else {
                CollectionPolicy::Unbounded
            },
            GdbCommand::Print { .. } => CollectionPolicy::Exactly(1),
            GdbCommand::Restore { .. } => CollectionPolicy::Exactly(1),
            GdbCommand::Help => CollectionPolicy::Unbounded,
            GdbCommand::Quit => CollectionPolicy::NoneExpected,
        }
    }

    /// How long the reply to the command is awaited, in milliseconds.
    pub fn timeout_ms(&self) -> (r: u64)
        ensures
            r == command_timeout_ms(*self),
    {
        match self {
            GdbCommand::ConfirmOff => 0,
            GdbCommand::TargetRemote { .. } => 500,
            GdbCommand::MonitorReset => 250,
            GdbCommand::Break { .. } => 750,
            GdbCommand::Continue => 750,
            GdbCommand::MonitorHalt => 0,
            GdbCommand::MonitorSleep { millis } => *millis as u64 + 250,
            GdbCommand::Call { .. } => 250,
            GdbCommand::Print { .. } => 250,
            GdbCommand::Restore { .. } => 1000,
            GdbCommand::Help => 500,
            GdbCommand::Quit => 0,
        }
    }
}

} // verus!
