//! Terminal styling: the escape sequences that color a piece of text.

use vstd::prelude::*;

use crate::text::padded;
use crate::TermColor;

verus! {

/// The digit that selects `color` in a "set foreground" escape sequence.
pub open spec fn color_digit(color: TermColor) -> char {
    match color {
        TermColor::Black => '0',
        TermColor::Red => '1',
        TermColor::Green => '2',
        TermColor::Yellow => '3',
        TermColor::Blue => '4',
        TermColor::Magenta => '5',
        TermColor::Cyan => '6',
        TermColor::White => '7',
    }
}

/// The sequence that ends every styled piece of text.
pub open spec fn reset_code() -> Seq<char> {
    seq!['\x1b', '[', '0', 'm']
}

/// `text` between the sequence that switches the foreground to `color` and
/// the reset sequence.
pub open spec fn colored(color: TermColor, text: Seq<char>) -> Seq<char> {
    seq!['\x1b', '[', '3', color_digit(color), 'm'] + text + reset_code()
}

/// `text` between the sequence that switches to italics and the reset
/// sequence.
pub open spec fn italic(text: Seq<char>) -> Seq<char> {
    seq!['\x1b', '[', '3', 'm'] + text + reset_code()
}

/// What a terminal-aware rendering of `text` in `color` may be: the escape
/// sequences are present when colors are enabled for standard output and
/// absent otherwise.
pub open spec fn is_painted(out: Seq<char>, color: TermColor, text: Seq<char>) -> bool {
    out == text || out == colored(color, text)
}

/// What a terminal-aware rendering of `text` in italics may be.
pub open spec fn is_slanted(out: Seq<char>, text: Seq<char>) -> bool {
    out == text || out == italic(text)
}

/// What a line of output is to look like.
pub enum Pattern {
    /// Exactly this text.
    Plain(Seq<char>),
    /// This text in this color.
    Painted(TermColor, Seq<char>),
    /// A menu entry: the label filled up to 5 characters and the name
    /// filled up to 30, each in this color, and the description, with one
    /// space between them.
    Entry { color: TermColor, label: Seq<char>, name: Seq<char>, description: Seq<char> },
    /// The tags of a menu entry: five spaces, `Tags: ` and this text in
    /// italics.
    Tags(Seq<char>),
}

/// `text` in `color` with its escape sequences (`on`) or without them.
pub open spec fn dressed(on: bool, color: TermColor, text: Seq<char>) -> Seq<char> {
    if on {
        colored(color, text)
    } else {
        text
    }
}

/// The text of a menu entry, each of its two colored parts with its escape
/// sequences or without them.
pub open spec fn entry_text(
    label_on: bool,
    name_on: bool,
    color: TermColor,
    label: Seq<char>,
    name: Seq<char>,
    description: Seq<char>,
) -> Seq<char> {
    dressed(label_on, color, padded(label, 5)) + " "@ + dressed(name_on, color, padded(name, 30))
        + " "@ + description
}

/// Whether `line` looks as `pattern` says. Each styled part of it may
/// carry its escape sequences or come without them.
pub open spec fn fits(line: Seq<char>, pattern: Pattern) -> bool {
    match pattern {
        Pattern::Plain(text) => line == text,
        Pattern::Painted(color, text) => is_painted(line, color, text),
        Pattern::Entry { color, label, name, description } => {
            ||| line == entry_text(false, false, color, label, name, description)
            ||| line == entry_text(false, true, color, label, name, description)
            ||| line == entry_text(true, false, color, label, name, description)
            ||| line == entry_text(true, true, color, label, name, description)
        },
        Pattern::Tags(text) => {
            ||| line == "     Tags: "@ + text
            ||| line == "     Tags: "@ + italic(text)
        },
    }
}

/// Whether there are as many `lines` as `patterns`, each line looking as
/// the pattern at its place says.
pub open spec fn all_fit(lines: Seq<Seq<char>>, patterns: Seq<Pattern>) -> bool {
    lines.len() == patterns.len() && forall|i: int|
        0 <= i < lines.len() ==> fits(#[trigger] lines[i], patterns[i])
}

/// A sequence of lines that fit stays one when a line that fits is added.
pub proof fn all_fit_push(
    lines: Seq<Seq<char>>,
    patterns: Seq<Pattern>,
    line: Seq<char>,
    pattern: Pattern,
)
    requires
        all_fit(lines, patterns),
        fits(line, pattern),
    ensures
        all_fit(lines.push(line), patterns.push(pattern)),
{
    assert forall|i: int| 0 <= i < lines.len() + 1 implies fits(
        #[trigger] lines.push(line)[i],
        patterns.push(pattern)[i],
    ) by {
        if i < lines.len() {
            assert(lines.push(line)[i] == lines[i]);
        }
    }
}

/// The English name of `color`.
pub open spec fn color_name(color: TermColor) -> Seq<char> {
    match color {
        TermColor::Black => "Black"@,
        TermColor::Red => "Red"@,
        TermColor::Green => "Green"@,
        TermColor::Yellow => "Yellow"@,
        TermColor::Blue => "Blue"@,
        TermColor::Magenta => "Magenta"@,
        TermColor::Cyan => "Cyan"@,
        TermColor::White => "White"@,
    }
}

/// The English name of `color`.
pub fn color_text(color: TermColor) -> (name: &'static str)
    ensures
        name@ == color_name(color),
{
    match color {
        TermColor::Black => "Black",
        TermColor::Red => "Red",
        TermColor::Green => "Green",
        TermColor::Yellow => "Yellow",
        TermColor::Blue => "Blue",
        TermColor::Magenta => "Magenta",
        TermColor::Cyan => "Cyan",
        TermColor::White => "White",
    }
}

/// A line to write, and how long to wait after writing it.
pub struct Printout {
    pub line: String,
    pub pause_ms: u64,
}

/// Renders `text` in `color` with `console::Style::apply_to`.
///
/// Trusted: the style carries a foreground color and nothing else, so the
/// formatted value is the text alone when `console` finds colors disabled
/// for standard output, and the text between the color's escape sequence
/// and the reset sequence when it finds them enabled.
#[verifier::external_body]
pub(crate) fn paint(color: TermColor, text: &str) -> (out: String)
    ensures
        is_painted(out@, color, text@),
{
    let style = match color {
        TermColor::Black => console::Style::new().black(),
        TermColor::Red => console::Style::new().red(),
        TermColor::Green => console::Style::new().green(),
        TermColor::Yellow => console::Style::new().yellow(),
        TermColor::Blue => console::Style::new().blue(),
        TermColor::Magenta => console::Style::new().magenta(),
        TermColor::Cyan => console::Style::new().cyan(),
        TermColor::White => console::Style::new().white(),
    };
    format!("{}", style.apply_to(text))
}

/// Renders `text` in italics with `console::Style::apply_to`.
///
/// Trusted: the style carries the italic attribute and nothing else, so the
/// formatted value is the text alone when `console` finds colors disabled
/// for standard output, and the text between the italic escape sequence and
/// the reset sequence when it finds them enabled.
#[verifier::external_body]
pub(crate) fn slant(text: &str) -> (out: String)
    ensures
        is_slanted(out@, text@),
{
    format!("{}", console::Style::new().italic().apply_to(text))
}

} // verus!
