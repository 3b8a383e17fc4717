//! Programs and the builder that configures them.

use vstd::prelude::*;

use crate::cli::action::Action;
pub use crate::cli::shell::DefaultCommandExecutor;
pub use crate::cli::shell::ShellCommand;
pub use crate::cli::shell::ShellCommandError;
use crate::style::is_painted;
use crate::style::paint;
use crate::style::Printout;
use crate::text::concat2;
use crate::text::concat3;
use crate::text::same_text;
use crate::TermColor;

verus! {

/// A named unit of work with its styling, timing and tags.
pub struct Program {
    name: String,
    run_func: Box<dyn Action>,
    color: TermColor,
    sleep: u64,
    silent: bool,
    description: String,
    tags: Vec<String>,
}

/// Collects the settings of a [`Program`]; [`ProgramBuilder::build`] needs
/// an action to have been set.
pub struct ProgramBuilder {
    name: String,
    run_func: Option<Box<dyn Action>>,
    color: TermColor,
    sleep: u64,
    silent: bool,
    description: String,
    tags: Vec<String>,
}

/// The mathematical content of a [`Program`], and of a [`ProgramBuilder`],
/// but for the action.
pub struct ProgramView {
    pub name: Seq<char>,
    pub description: Seq<char>,
    pub tags: Seq<Seq<char>>,
    pub sleep: u64,
    pub silent: bool,
    pub color: TermColor,
}

/// The settings of a builder on which no configuration call was made.
pub open spec fn default_settings(name: Seq<char>) -> ProgramView {
    ProgramView {
        name,
        description: Seq::empty(),
        tags: Seq::empty(),
        sleep: 0,
        silent: false,
        color: TermColor::Green,
    }
}

/// The text of the line that announces a run.
pub open spec fn announcement_text(name: Seq<char>) -> Seq<char> {
    name + " Running..."@
}

/// The text of a message of the program called `name`.
pub open spec fn message_text(name: Seq<char>, message: Seq<char>) -> Seq<char> {
    name + "> "@ + message
}

/// The text of an error message of the program called `name`.
pub open spec fn error_text(name: Seq<char>, message: Seq<char>) -> Seq<char> {
    name + " Error> "@ + message
}

/// Whether a call of `show` with a line that renders `text` in `color` has
/// returned. Nothing but such a call establishes it.
pub open spec fn was_shown<W: Fn(&str)>(show: W, color: TermColor, text: Seq<char>) -> bool {
    exists|line: &str| is_painted(line@, color, text) && #[trigger] call_ensures(show, (line,), ())
}

impl View for Program {
    type V = ProgramView;

    closed spec fn view(&self) -> ProgramView {
        ProgramView {
            name: self.name@,
            description: self.description@,
            tags: self.tags.deep_view(),
            sleep: self.sleep,
            silent: self.silent,
            color: self.color,
        }
    }
}

impl View for ProgramBuilder {
    type V = ProgramView;

    closed spec fn view(&self) -> ProgramView {
        ProgramView {
            name: self.name@,
            description: self.description@,
            tags: self.tags.deep_view(),
            sleep: self.sleep,
            silent: self.silent,
            color: self.color,
        }
    }
}

impl Program {
    #[verifier::type_invariant]
    spec fn startable(&self) -> bool {
        self.run_func.callable()
    }

    /// What holds once a call of the action has returned. Nothing but a
    /// call of the action establishes it.
    pub closed spec fn ran(&self) -> bool {
        self.run_func.completed()
    }

    /// A builder for a program called `name`.
    pub fn builder(name: &str) -> (builder: ProgramBuilder)
        ensures
            builder@ == default_settings(name@),
            !builder.has_action(),
    {
        ProgramBuilder::new(name)
    }

    /// Replaces the color.
    pub fn set_color(&mut self, color: TermColor)
        ensures
            final(self)@ == (ProgramView { color, ..old(self)@ }),
            final(self).ran() == old(self).ran(),
    {
        proof {
            use_type_invariant(&*self);
        }
        self.color = color;
    }

    /// Replaces the delay after each printed line, in milliseconds.
    pub fn set_sleep(&mut self, sleep: u64)
        ensures
            final(self)@ == (ProgramView { sleep, ..old(self)@ }),
            final(self).ran() == old(self).ran(),
    {
        proof {
            use_type_invariant(&*self);
        }
        self.sleep = sleep;
    }

    /// Switches the announcement of a run off (`true`) or on.
    pub fn set_silence(&mut self, silent: bool)
        ensures
            final(self)@ == (ProgramView { silent, ..old(self)@ }),
            final(self).ran() == old(self).ran(),
    {
        proof {
            use_type_invariant(&*self);
        }
        self.silent = silent;
    }

    /// The color.
    pub fn get_color(&self) -> (color: TermColor)
        ensures
            color == self@.color,
    {
        self.color
    }

    /// The delay after each printed line, in milliseconds.
    pub fn get_sleep(&self) -> (sleep: u64)
        ensures
            sleep == self@.sleep,
    {
        self.sleep
    }

    /// Whether the announcement of a run is switched off.
    pub fn get_silence(&self) -> (silent: bool)
        ensures
            silent == self@.silent,
    {
        self.silent
    }

    /// The line that shows `message` as coming from this program, and the
    /// delay that follows it.
    pub fn print(&self, message: &str) -> (out: Printout)
        ensures
            is_painted(out.line@, self@.color, message_text(self@.name, message@)),
            out.pause_ms == self@.sleep,
    {
        let text = concat3(self.name.as_str(), "> ", message);
        Printout { line: paint(self.color, text.as_str()), pause_ms: self.sleep }
    }

    /// The line that shows `message` as an error of this program.
    pub fn err_msg(&self, message: &str) -> (line: String)
        ensures
            is_painted(line@, TermColor::Red, error_text(self@.name, message@)),
    {
        let text = concat3(self.name.as_str(), " Error> ", message);
        paint(TermColor::Red, text.as_str())
    }

    /// The line that shows `message` as an error of this program.
    pub fn err(&self, message: &str) -> (line: String)
        ensures
            is_painted(line@, TermColor::Red, error_text(self@.name, message@)),
    {
        self.err_msg(message)
    }

    /// The line that announces a run, unless the program is silent.
    pub fn announcement(&self) -> (line: Option<String>)
        ensures
            self@.silent <==> line is None,
            line matches Some(l) ==> is_painted(
                l@,
                self@.color,
                announcement_text(self@.name),
            ),
    {
        if self.silent {
            None
        } else {
            let text = concat2(self.name.as_str(), " Running...");
            Some(paint(self.color, text.as_str()))
        }
    }

    /// Calls the action once.
    pub fn invoke(&self)
        ensures
            self.ran(),
    {
        proof {
            use_type_invariant(self);
        }
        self.run_func.invoke();
    }

    /// Runs the program: unless it is silent, hands the line that
    /// announces the run to `show`; then calls the action once, whether
    /// the program is silent or not.
    pub fn run<W: Fn(&str)>(&self, show: W)
        requires
            forall|line: &str| call_requires(show, (line,)),
        ensures
            self.ran(),
            !self@.silent ==> was_shown(show, self@.color, announcement_text(self@.name)),
    {
        match self.announcement() {
            Some(line) => {
                show(line.as_str());
            },
            None => {},
        }
        self.invoke();
    }

    /// The name.
    pub fn name(&self) -> (name: &str)
        ensures
            name@ == self@.name,
    {
        self.name.as_str()
    }

    /// The description; empty unless one was set.
    pub fn description(&self) -> (description: &str)
        ensures
            description@ == self@.description,
    {
        self.description.as_str()
    }

    /// The tags in the order in which they were given.
    pub fn tags(&self) -> (tags: &Vec<String>)
        ensures
            tags.deep_view() == self@.tags,
    {
        &self.tags
    }

    /// A copy of the tags in the order in which they were given.
    pub fn get_tags(&self) -> (tags: Vec<String>)
        ensures
            tags.deep_view() == self@.tags,
    {
        copy_of(&self.tags)
    }

    /// Whether `tag` is among the tags, letter for letter.
    pub fn has_tag(&self, tag: &str) -> (found: bool)
        ensures
            found == self@.tags.contains(tag@),
    {
        holds(&self.tags, tag)
    }
}

/// A copy of `items`.
fn copy_of(items: &Vec<String>) -> (copy: Vec<String>)
    ensures
        copy.deep_view() == items.deep_view(),
{
    let mut copy: Vec<String> = Vec::new();
    let mut i: usize = 0;
    while i < items.len()
        invariant
            i <= items.len(),
            copy.len() == i,
            forall|k: int| 0 <= k < i ==> copy[k]@ == items[k]@,
        decreases items.len() - i,
    {
        copy.push(items[i].clone());
        i += 1;
    }
    assert(copy.deep_view() =~= items.deep_view());
    copy
}

/// Whether `tag` is one of `tags`, letter for letter.
fn holds(tags: &Vec<String>, tag: &str) -> (found: bool)
    ensures
        found == tags.deep_view().contains(tag@),
{
    let mut i: usize = 0;
    while i < tags.len()
        invariant
            i <= tags.len(),
            forall|k: int| 0 <= k < i ==> tags[k]@ != tag@,
        decreases tags.len() - i,
    {
        if same_text(tags[i].as_str(), tag) {
            assert(tags.deep_view()[i as int] == tag@);
            return true;
        }
        i += 1;
    }
    false
}

impl ProgramBuilder {
    #[verifier::type_invariant]
    spec fn startable(&self) -> bool {
        self.run_func matches Some(action) ==> action.callable()
    }

    /// Whether an action has been set.
    pub closed spec fn has_action(&self) -> bool {
        self.run_func is Some
    }

    /// What holds once a call of the action that was set has returned;
    /// `false` where none was set.
    pub closed spec fn completes(&self) -> bool {
        match self.run_func {
            Some(action) => action.completed(),
            None => false,
        }
    }

    /// Whether `other` has an action set exactly when this builder has, and
    /// one of which the same holds after a call.
    pub open spec fn same_action(&self, other: &ProgramBuilder) -> bool {
        self.has_action() == other.has_action() && self.completes() == other.completes()
    }

    /// A builder for a program called `name`: no action, green, no delay,
    /// not silent, no description, no tags.
    pub fn new(name: &str) -> (builder: Self)
        ensures
            builder@ == default_settings(name@),
            !builder.has_action(),
    {
        let builder = Self {
            name: name.to_owned(),
            run_func: None,
            color: TermColor::Green,
            sleep: 0,
            silent: false,
            description: String::new(),
            tags: Vec::new(),
        };
        assert(builder.tags.deep_view() =~= Seq::<Seq<char>>::empty());
        builder
    }

    /// Resets color, delay, silence and description to their defaults.
    /// Tags and action stay.
    pub fn use_defaults(self) -> (builder: Self)
        ensures
            builder@ == (ProgramView { tags: self@.tags, ..default_settings(self@.name) }),
            builder.same_action(&self),
    {
        proof {
            reveal_strlit("");
        }
        let builder = self.color(TermColor::Green).sleep(0).silent(false).description("");
        assert(builder@.description =~= Seq::<char>::empty());
        builder
    }

    /// Sets the action; an action set before is replaced.
    pub fn action<F: Fn() + 'static>(self, f: F) -> (builder: Self)
        requires
            call_requires(f, ()),
        ensures
            builder@ == self@,
            builder.has_action(),
            builder.completes() == call_ensures(f, (), ()),
    {
        proof {
            use_type_invariant(&self);
        }
        let mut builder = self;
        builder.run_func = Some(Box::new(f));
        builder
    }

    /// Sets the color.
    pub fn color(self, color: TermColor) -> (builder: Self)
        ensures
            builder@ == (ProgramView { color, ..self@ }),
            builder.same_action(&self),
    {
        proof {
            use_type_invariant(&self);
        }
        let mut builder = self;
        builder.color = color;
        builder
    }

    /// Sets the delay after each printed line, in milliseconds.
    pub fn sleep(self, sleep: u64) -> (builder: Self)
        ensures
            builder@ == (ProgramView { sleep, ..self@ }),
            builder.same_action(&self),
    {
        proof {
            use_type_invariant(&self);
        }
        let mut builder = self;
        builder.sleep = sleep;
        builder
    }

    /// Switches the announcement of a run off (`true`) or on.
    pub fn silent(self, silent: bool) -> (builder: Self)
        ensures
            builder@ == (ProgramView { silent, ..self@ }),
            builder.same_action(&self),
    {
        proof {
            use_type_invariant(&self);
        }
        let mut builder = self;
        builder.silent = silent;
        builder
    }

    /// Sets the description.
    pub fn description(self, desc: &str) -> (builder: Self)
        ensures
            builder@ == (ProgramView { description: desc@, ..self@ }),
            builder.same_action(&self),
    {
        proof {
            use_type_invariant(&self);
        }
        let mut builder = self;
        builder.description = desc.to_owned();
        builder
    }

    /// Replaces the tags.
    pub fn tags(self, tags: Vec<String>) -> (builder: Self)
        ensures
            builder@ == (ProgramView { tags: tags.deep_view(), ..self@ }),
            builder.same_action(&self),
    {
        proof {
            use_type_invariant(&self);
        }
        let mut builder = self;
        builder.tags = tags;
        builder
    }

    /// Appends one tag; a tag that is already there is appended again.
    pub fn tag(self, tag: &str) -> (builder: Self)
        ensures
            builder@ == (ProgramView { tags: self@.tags.push(tag@), ..self@ }),
            builder.same_action(&self),
    {
        proof {
            use_type_invariant(&self);
        }
        let Self { name, run_func, color, sleep, silent, description, tags } = self;
        let mut tags = tags;
        tags.push(tag.to_owned());
        assert(tags.deep_view() =~= self.tags.deep_view().push(tag@));
        Self { name, run_func, color, sleep, silent, description, tags }
    }

    /// Whether `tag` is among the tags, letter for letter.
    pub fn has_tag(&self, tag: &str) -> (found: bool)
        ensures
            found == self@.tags.contains(tag@),
    {
        holds(&self.tags, tag)
    }

    /// The tags in the order in which they were given.
    pub fn get_tags(&self) -> (tags: &Vec<String>)
        ensures
            tags.deep_view() == self@.tags,
    {
        &self.tags
    }

    /// Whether an action has been set, so that the builder can build.
    pub fn is_ready(&self) -> (ready: bool)
        ensures
            ready == self.has_action(),
    {
        self.run_func.is_some()
    }

    /// The program with the settings and the action of this builder.
    pub fn build(self) -> (program: Program)
        requires
            self.has_action(),
        ensures
            program@ == self@,
            program.ran() == self.completes(),
    {
        proof {
            use_type_invariant(&self);
        }
        let Self { name, run_func, color, sleep, silent, description, tags } = self;
        match run_func {
            Some(action) => Program {
                name,
                run_func: action,
                color,
                sleep,
                silent,
                description,
                tags,
            },
            None => unreached(),
        }
    }

    /// The program with the settings and the action of this builder, or
    /// nothing where no action was set.
    pub fn try_build(self) -> (program: Option<Program>)
        ensures
            program is Some <==> self.has_action(),
            program matches Some(p) ==> p@ == self@ && p.ran() == self.completes(),
    {
        if self.run_func.is_some() {
            Some(self.build())
        } else {
            None
        }
    }
}

} // verus!
