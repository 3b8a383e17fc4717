//! Prompts: what is shown around a line of input, and what a line that was
//! read means.
//!
//! Reading the line is the caller's part. The functions here take the line
//! and say what follows from it.

use vstd::prelude::*;

use crate::cli::system::CliError;
use crate::cli::system::CliErrorView;
use crate::cli::system::System;
use crate::style::is_painted;
use crate::style::paint;
use crate::style::Printout;
use crate::text::blank;
use crate::text::blank_trims_to_nothing;
use crate::text::clean_line;
use crate::text::is_blank;
use crate::text::trimmed;
use crate::text::concat3;
use crate::text::parse_number;
use crate::text::parsed_number;
use crate::text::same_text;
use crate::text::without_returns;
use crate::TermColor;

verus! {

/// What a line of input amounts to.
#[derive(Debug)]
pub enum Entry {
    /// The word `quit`: the user asks to leave the program.
    Quit,
    /// Any other line, without its carriage returns.
    Line(String),
}

/// The mathematical content of an [`Entry`].
pub enum EntryView {
    Quit,
    Line(Seq<char>),
}

impl View for Entry {
    type V = EntryView;

    open spec fn view(&self) -> EntryView {
        match self {
            Entry::Quit => EntryView::Quit,
            Entry::Line(line) => EntryView::Line(line@),
        }
    }
}

/// The answer to a line that was read: the line that echoes it, and what
/// it amounts to.
pub struct Prompted {
    pub echo: String,
    pub entry: Entry,
}

/// What the line `raw` amounts to once its carriage returns are dropped.
pub open spec fn entry_of(raw: Seq<char>) -> EntryView {
    if without_returns(raw) == "quit"@ {
        EntryView::Quit
    } else {
        EntryView::Line(without_returns(raw))
    }
}

/// The line that is shown when the program shuts down.
pub open spec fn farewell_text() -> Seq<char> {
    "\n\n\t Shutting Down\n\n"@
}

/// The line to show and the time to wait, in milliseconds, before the
/// process ends.
pub fn farewell() -> (out: Printout)
    ensures
        out.line@ == farewell_text(),
        out.pause_ms == 200,
{
    Printout { line: "\n\n\t Shutting Down\n\n".to_owned(), pause_ms: 200 }
}

impl System {
    /// The line that asks for input under `label`.
    pub fn prompt(&self, label: &str) -> (line: String)
        ensures
            is_painted(line@, self@.color, label@),
    {
        paint(self.get_color(), label)
    }

    /// Takes the line `raw` as it was read, without its line feed: the
    /// line that echoes it, and what it amounts to.
    pub fn input(&self, raw: &str) -> (answer: Prompted)
        ensures
            is_painted(answer.echo@, self@.color, self@.name + "> "@ + raw@),
            answer.entry@ == entry_of(raw@),
    {
        let text = concat3(self.name(), "> ", raw);
        let echo = paint(self.get_color(), text.as_str());
        let line = clean_line(raw);
        let entry = if same_text(line.as_str(), "quit") {
            Entry::Quit
        } else {
            Entry::Line(line)
        };
        Prompted { echo, entry }
    }

    /// Checks the line `input` with `validator`: the line where it is
    /// accepted, and the error line to show before asking again where it is
    /// not.
    pub fn input_with_validation<F>(&self, input: &str, validator: F) -> (result: Result<
        String,
        String,
    >) where F: Fn(&str) -> bool
        requires
            call_requires(validator, (input,)),
        ensures
            call_ensures(validator, (input,), result is Ok),
            result matches Ok(line) ==> line@ == input@,
            result matches Err(line) ==> is_painted(
                line@,
                TermColor::Red,
                self@.name + "Error> "@ + "Invalid input"@,
            ),
    {
        if validator(input) {
            Ok(input.to_owned())
        } else {
            let message = "Invalid input".to_owned();
            Err(self.err(Some(&message)))
        }
    }

    /// The number that the line `input` denotes, if it denotes one.
    pub fn input_number(&self, input: &str) -> (number: Option<i32>)
        ensures
            number == parsed_number(input@),
    {
        parse_number(input)
    }

    /// The line `input` as it was read, unless nothing is left of it
    /// without its leading and trailing white space.
    pub fn input_required(&self, input: &str) -> (result: Result<String, CliError>)
        ensures
            result is Err <==> trimmed(input@).len() == 0,
            result is Err <==> is_blank(input@),
            result matches Ok(line) ==> line@ == input@,
            result matches Err(e) ==> e@ == CliErrorView::InvalidInput("Input cannot be empty"@),
    {
        proof {
            blank_trims_to_nothing(input@);
        }
        if blank(input) {
            Err(CliError::InvalidInput("Input cannot be empty".to_owned()))
        } else {
            Ok(input.to_owned())
        }
    }

    /// The line to show and the time to wait, in milliseconds, before the
    /// process ends.
    pub fn quit(&self) -> (out: Printout)
        ensures
            out.line@ == farewell_text(),
            out.pause_ms == 200,
    {
        farewell()
    }
}

} // verus!
