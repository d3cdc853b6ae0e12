//! A greeting for interactive terminals.
//!
//! The library decides what a greeter and a plain printer write, and leaves the writing
//! itself to its caller: every function appends its text to a `String` that the caller
//! hands in and later sends to standard output.

pub mod greeter;
pub mod output;
pub mod printer;
mod terminal;

pub use greeter::{greet, print_hello, GreetError};
pub use printer::i_am_untested;
