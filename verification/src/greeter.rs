//! The greeter: one line for an interactive terminal, an error for anything else.

use vstd::prelude::*;

use crate::output::{line, write_line};
use crate::terminal::stdin_is_terminal;

verus! {

/// Why the greeter refused to greet.
#[derive(Clone, Copy, Debug, PartialEq, Eq, Structural)]
pub enum GreetError {
    /// Standard input is not attached to a terminal.
    NotATerminal,
}

/// The text of the greeting, without its newline.
pub open spec fn greeting() -> Seq<char> {
    "Hello, world!"@
}

/// The diagnostic that goes with `GreetError::NotATerminal`.
pub open spec fn diagnostic() -> Seq<char> {
    "must be called from a tty"@
}

/// What the greeter returns when the terminal probe has answered `attached`.
pub open spec fn greet_result(attached: bool) -> Result<(), GreetError> {
    if attached {
        Ok(())
    } else {
        Err(GreetError::NotATerminal)
    }
}

/// What the greeter adds to the output when the terminal probe has answered `attached`:
/// the greeting line, or nothing at all.
pub open spec fn greet_output(attached: bool) -> Seq<char> {
    if attached {
        line(greeting())
    } else {
        Seq::empty()
    }
}

impl GreetError {
    /// The text that `message` returns for this error.
    pub open spec fn message_spec(self) -> Seq<char> {
        match self {
            GreetError::NotATerminal => diagnostic(),
        }
    }

    /// The diagnostic of this error, for the caller to show as it sees fit.
    pub fn message(&self) -> (text: String)
        ensures
            text@ == self.message_spec(),
    {
        match self {
            GreetError::NotATerminal => String::from_str("must be called from a tty"),
        }
    }
}

/// Greets on `out`, given the answer of the terminal probe.
///
/// With `attached` the greeting line is appended to `out`. Without it nothing is
/// written and the call fails with `GreetError::NotATerminal`.
pub fn greet(attached: bool, out: &mut String) -> (result: Result<(), GreetError>)
    ensures
        result == greet_result(attached),
        final(out)@ == old(out)@ + greet_output(attached),
{
    if attached {
        write_line(out, "Hello, world!");
        Ok(())
    } else {
        assert(out@ =~= old(out)@ + Seq::<char>::empty());
        Err(GreetError::NotATerminal)
    }
}

/// Asks whether standard input is a terminal and greets on `out` if it is.
///
/// Which of the two outcomes comes back is for the operating system to say. Either the
/// call succeeds and has appended the greeting line, or it fails with
/// `GreetError::NotATerminal` and has left `out` as it was.
pub fn print_hello(out: &mut String) -> (result: Result<(), GreetError>)
    ensures
        match result {
            Ok(()) => final(out)@ == old(out)@ + line(greeting()),
            Err(err) => err == GreetError::NotATerminal && final(out)@ == old(out)@,
        },
{
    let attached = stdin_is_terminal();
    greet(attached, out)
}

} // verus!
