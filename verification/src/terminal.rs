//! The one question this library asks of its environment.

use vstd::prelude::*;

verus! {

/// Whether standard input of this process is attached to a terminal: the answer of
/// `atty::is` for `atty::Stream::Stdin`.
///
/// The answer comes from the operating system and can change from one call to the next,
/// so the contract claims nothing of it. Callers are verified for either answer.
#[verifier::external_body]
pub(crate) fn stdin_is_terminal() -> (attached: bool) {
    atty::is(atty::Stream::Stdin)
}

} // verus!
