//! A small toolkit for menu-driven terminal programs.
//!
//! A [`System`] is an ordered registry of named [`Program`]s. The library
//! decides what a menu shows, what a typed line selects, which lines are to
//! be written and how an external command is validated; the caller writes
//! the lines, reads the input and starts the processes.

use vstd::prelude::*;

pub mod cli;
pub mod menu;
pub mod style;
pub mod text;

use cli::prompt::farewell;
use cli::prompt::farewell_text;
use style::is_painted;
use style::paint;
use style::Printout;
use text::concat2;

pub use cli::program::Program;
pub use cli::program::ShellCommand;
pub use cli::system::System;

verus! {

/// Color options for terminal output styling.
#[derive(Clone, Copy, Debug, PartialEq, Eq, Structural)]
pub enum TermColor {
    Black,
    Red,
    Green,
    Yellow,
    Blue,
    Magenta,
    Cyan,
    White,
}

/// The text of an error line that names no source.
pub open spec fn error_line_text(s: Option<&String>) -> Seq<char> {
    "Error> "@ + (match s {
        Some(message) => message@,
        None => "Error"@,
    })
}

/// The line that shows `s` as an error, or the word `Error` where there is
/// no message.
pub fn err(s: Option<&String>) -> (line: String)
    ensures
        is_painted(line@, TermColor::Red, error_line_text(s)),
{
    let text = match s {
        Some(message) => concat2("Error> ", message.as_str()),
        None => concat2("Error> ", "Error"),
    };
    paint(TermColor::Red, text.as_str())
}

/// The line to show and the time to wait, in milliseconds, before the
/// process ends.
pub fn quit() -> (out: Printout)
    ensures
        out.line@ == farewell_text(),
        out.pause_ms == 200,
{
    farewell()
}

} // verus!
