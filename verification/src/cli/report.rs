//! Listings of a system: the help page and the dump of its state.

use vstd::prelude::*;

use crate::cli::program::Program;
use crate::cli::program::ProgramView;
use crate::cli::system::views_of;
use crate::cli::system::System;
use crate::cli::system::SystemView;
use crate::style::all_fit;
use crate::style::all_fit_push;
use crate::style::color_name;
use crate::style::color_text;
use crate::style::paint;
use crate::style::Pattern;
use crate::text::concat2;
use crate::text::concat3;
use crate::text::decimal;
use crate::text::decimal_text;
use crate::text::join;
use crate::text::joined;
use crate::TermColor;

verus! {

/// The word for `flag`.
pub open spec fn flag_name(flag: bool) -> Seq<char> {
    if flag {
        "true"@
    } else {
        "false"@
    }
}

/// The lines of the help page for `programs`: for each program its name,
/// its description and, where it has any, its tags.
pub open spec fn help_entries(color: TermColor, programs: Seq<ProgramView>) -> Seq<Pattern>
    decreases programs.len(),
{
    if programs.len() == 0 {
        Seq::empty()
    } else {
        let p = programs.last();
        let lines = help_entries(color, programs.drop_last()).push(
            Pattern::Painted(color, "\n"@ + p.name),
        ).push(Pattern::Plain("  Description: "@ + p.description));
        if p.tags.len() > 0 {
            lines.push(Pattern::Plain("  Tags: "@ + joined(p.tags, ", "@)))
        } else {
            lines
        }
    }
}

/// The lines of the help page of `system`: a heading, then the programs.
pub open spec fn help_patterns(system: SystemView) -> Seq<Pattern> {
    seq![Pattern::Painted(system.color, "=== "@ + system.name + " Help ==="@)] + help_entries(
        system.color,
        system.programs,
    )
}

/// The lines of the dump for `programs`, which are numbered from 1.
pub open spec fn dump_entries(programs: Seq<ProgramView>) -> Seq<Seq<char>>
    decreases programs.len(),
{
    if programs.len() == 0 {
        Seq::empty()
    } else {
        let p = programs.last();
        dump_entries(programs.drop_last()).push(
            "  Program "@ + decimal(programs.len()) + ":"@,
        ).push("    Name: "@ + p.name).push("    Color: "@ + color_name(p.color)).push(
            "    Sleep: "@ + decimal(p.sleep as nat),
        ).push("    Silent: "@ + flag_name(p.silent)).push(
            "    Description: "@ + p.description,
        ).push("    Tags: "@ + joined(p.tags, ", "@))
    }
}

/// The lines of the dump of `system`: its settings, then its programs.
pub open spec fn dump_lines(system: SystemView) -> Seq<Seq<char>> {
    seq![
        "System Name: "@ + system.name,
        "Color: "@ + color_name(system.color),
        "Sleep: "@ + decimal(system.sleep as nat),
        "Silent: "@ + flag_name(system.silent),
        "Programs:"@,
    ] + dump_entries(system.programs)
}

/// The word for `flag`.
fn flag_text(flag: bool) -> (name: &'static str)
    ensures
        name@ == flag_name(flag),
{
    if flag {
        "true"
    } else {
        "false"
    }
}

/// Adds `line` behind `lines`.
fn push_line(lines: &mut Vec<String>, line: String)
    ensures
        final(lines).deep_view() == old(lines).deep_view().push(line@),
{
    lines.push(line);
    assert(lines.deep_view() =~= old(lines).deep_view().push(line@));
}

impl System {
    /// The help page: a heading with the name of the system, then each
    /// program with its name, its description and, where it has any, its
    /// tags.
    pub fn show_help(&self) -> (lines: Vec<String>)
        ensures
            all_fit(lines.deep_view(), help_patterns(self@)),
    {
        let programs = self.programs();
        let color = self.get_color();
        let mut lines: Vec<String> = Vec::new();
        let heading = concat3("=== ", self.name(), " Help ===");
        push_line(&mut lines, paint(color, heading.as_str()));
        let ghost top = seq![Pattern::Painted(color, "=== "@ + self@.name + " Help ==="@)];
        let ghost mut shown: Seq<Pattern> = Seq::empty();
        assert(lines.deep_view() =~= seq![lines.deep_view()[0]]);
        assert(self@.programs.take(0) =~= Seq::<ProgramView>::empty());
        assert(top + shown =~= top);
        let mut i: usize = 0;
        while i < programs.len()
            invariant
                i <= programs.len(),
                views_of(programs@) == self@.programs,
                color == self@.color,
                top == seq![Pattern::Painted(color, "=== "@ + self@.name + " Help ==="@)],
                shown == help_entries(color, self@.programs.take(i as int)),
                all_fit(lines.deep_view(), top + shown),
            decreases programs.len() - i,
        {
            let program = &programs[i];
            proof {
                let now = self@.programs.take(i + 1);
                assert(now.drop_last() =~= self@.programs.take(i as int));
                assert(now.last() == program@);
            }
            let name = concat2("\n", program.name());
            let first = paint(color, name.as_str());
            proof {
                all_fit_push(
                    lines.deep_view(),
                    top + shown,
                    first@,
                    Pattern::Painted(color, "\n"@ + program@.name),
                );
                assert((top + shown).push(Pattern::Painted(color, "\n"@ + program@.name)) =~= top
                    + shown.push(Pattern::Painted(color, "\n"@ + program@.name)));
                shown = shown.push(Pattern::Painted(color, "\n"@ + program@.name));
            }
            push_line(&mut lines, first);
            let second = concat2("  Description: ", program.description());
            proof {
                all_fit_push(
                    lines.deep_view(),
                    top + shown,
                    second@,
                    Pattern::Plain("  Description: "@ + program@.description),
                );
                assert((top + shown).push(Pattern::Plain("  Description: "@ + program@.description))
                    =~= top + shown.push(
                    Pattern::Plain("  Description: "@ + program@.description),
                ));
                shown = shown.push(Pattern::Plain("  Description: "@ + program@.description));
            }
            push_line(&mut lines, second);
            if program.tags().len() > 0 {
                let list = join(program.tags(), ", ");
                let third = concat2("  Tags: ", list.as_str());
                proof {
                    let pattern = Pattern::Plain("  Tags: "@ + joined(program@.tags, ", "@));
                    all_fit_push(lines.deep_view(), top + shown, third@, pattern);
                    assert((top + shown).push(pattern) =~= top + shown.push(pattern));
                    shown = shown.push(pattern);
                }
                push_line(&mut lines, third);
            }
            i += 1;
        }
        assert(self@.programs.take(i as int) =~= self@.programs);
        lines
    }

    /// The dump of the system's state for diagnostics: its settings, then
    /// each program with its settings.
    pub fn display(&self) -> (lines: Vec<String>)
        ensures
            lines.deep_view() == dump_lines(self@),
    {
        let programs = self.programs();
        let mut lines: Vec<String> = Vec::new();
        push_line(&mut lines, concat2("System Name: ", self.name()));
        push_line(&mut lines, concat2("Color: ", color_text(self.get_color())));
        let sleep = decimal_text(self.get_sleep());
        push_line(&mut lines, concat2("Sleep: ", sleep.as_str()));
        push_line(&mut lines, concat2("Silent: ", flag_text(self.get_silence())));
        push_line(&mut lines, "Programs:".to_owned());
        let ghost top = dump_lines(
            SystemView { programs: Seq::<ProgramView>::empty(), ..self@ },
        );
        assert(lines.deep_view() =~= top);
        assert(self@.programs.take(0) =~= Seq::<ProgramView>::empty());
        let mut i: usize = 0;
        while i < programs.len()
            invariant
                i <= programs.len(),
                views_of(programs@) == self@.programs,
                top.len() == 5,
                top == dump_lines(SystemView { programs: Seq::<ProgramView>::empty(), ..self@ }),
                lines.deep_view() == top + dump_entries(self@.programs.take(i as int)),
            decreases programs.len() - i,
        {
            let program = &programs[i];
            let ghost before = lines.deep_view();
            proof {
                let now = self@.programs.take(i + 1);
                assert(now.drop_last() =~= self@.programs.take(i as int));
                assert(now.last() == program@);
            }
            let number = decimal_text((i + 1) as u64);
            push_line(&mut lines, concat3("  Program ", number.as_str(), ":"));
            push_line(&mut lines, concat2("    Name: ", program.name()));
            push_line(&mut lines, concat2("    Color: ", color_text(program.get_color())));
            let sleep = decimal_text(program.get_sleep());
            push_line(&mut lines, concat2("    Sleep: ", sleep.as_str()));
            push_line(&mut lines, concat2("    Silent: ", flag_text(program.get_silence())));
            push_line(&mut lines, concat2("    Description: ", program.description()));
            let list = join(program.tags(), ", ");
            push_line(&mut lines, concat2("    Tags: ", list.as_str()));
            i += 1;
            assert(lines.deep_view() =~= top + dump_entries(self@.programs.take(i as int)));
        }
        assert(self@.programs.take(i as int) =~= self@.programs);
        lines
    }
}

} // verus!
