//! The system: an ordered registry of programs with shared defaults.

use vstd::prelude::*;
use vstd::string::StringExecFns;

use crate::cli::program::announcement_text;
use crate::cli::program::was_shown;
use crate::cli::program::Program;
use crate::cli::program::ProgramView;
use crate::style::is_painted;
use crate::style::paint;
use crate::style::Printout;
use crate::text::concat2;
use crate::text::concat3;
use crate::text::decimal;
use crate::text::decimal_text;
use crate::text::precedes;
use crate::text::same_text;
use crate::text::text_less;
use crate::text::text_less_strict_total;
use crate::text::text_less_transitive;
use crate::TermColor;

verus! {

/// The hub of a terminal program: a name, the defaults that programs
/// inherit, and the programs in the order in which they were added. That
/// order is the order of the menu, and a program's place in it is its
/// index.
pub struct System {
    name: String,
    color: TermColor,
    sleep: u64,
    programs: Vec<Program>,
    silent: bool,
}

/// Collects the settings and the programs of a [`System`].
pub struct SystemBuilder {
    name: String,
    color: TermColor,
    sleep: u64,
    silent: bool,
    programs: Vec<Program>,
}

/// The mathematical content of a [`System`], and of a [`SystemBuilder`].
pub struct SystemView {
    pub name: Seq<char>,
    pub color: TermColor,
    pub sleep: u64,
    pub silent: bool,
    pub programs: Seq<ProgramView>,
}

/// What went wrong in a call of the registry.
#[derive(Debug)]
pub enum CliError {
    InvalidInput(String),
    CommandFailed(String),
    ProgramNotFound(String),
}

/// The mathematical content of a [`CliError`].
pub enum CliErrorView {
    InvalidInput(Seq<char>),
    CommandFailed(Seq<char>),
    ProgramNotFound(Seq<char>),
}

impl View for CliError {
    type V = CliErrorView;

    open spec fn view(&self) -> CliErrorView {
        match self {
            CliError::InvalidInput(m) => CliErrorView::InvalidInput(m@),
            CliError::CommandFailed(m) => CliErrorView::CommandFailed(m@),
            CliError::ProgramNotFound(m) => CliErrorView::ProgramNotFound(m@),
        }
    }
}

/// The text that shows an error.
pub open spec fn error_display(error: CliErrorView) -> Seq<char> {
    match error {
        CliErrorView::InvalidInput(m) => "Invalid input: "@ + m,
        CliErrorView::CommandFailed(m) => "Command failed: "@ + m,
        CliErrorView::ProgramNotFound(m) => "Program not found: "@ + m,
    }
}

impl CliError {
    /// The text that shows this error.
    pub fn message(&self) -> (text: String)
        ensures
            text@ == error_display(self@),
    {
        match self {
            CliError::InvalidInput(m) => concat2("Invalid input: ", m.as_str()),
            CliError::CommandFailed(m) => concat2("Command failed: ", m.as_str()),
            CliError::ProgramNotFound(m) => concat2("Program not found: ", m.as_str()),
        }
    }
}

/// The contents of `programs`, one by one.
pub open spec fn views_of(programs: Seq<Program>) -> Seq<ProgramView> {
    programs.map_values(|p: Program| p@)
}

/// The settings of a program that is added with the defaults `system`
/// holds at that moment.
pub open spec fn inherited(system: SystemView, name: Seq<char>) -> ProgramView {
    ProgramView {
        name,
        description: Seq::empty(),
        tags: Seq::empty(),
        sleep: system.sleep,
        silent: system.silent,
        color: system.color,
    }
}

/// The settings of a builder on which no configuration call was made.
pub open spec fn default_system(name: Seq<char>) -> SystemView {
    SystemView {
        name,
        color: TermColor::Green,
        sleep: 100,
        silent: false,
        programs: Seq::empty(),
    }
}

/// `system` with the silence of the program at `index` set to `silent`.
pub open spec fn with_silence(system: SystemView, index: int, silent: bool) -> SystemView {
    SystemView {
        programs: system.programs.update(
            index,
            ProgramView { silent, ..system.programs[index] },
        ),
        ..system
    }
}

/// The text of the line that reports how long a program ran.
pub open spec fn bench_text(name: Seq<char>, elapsed: Seq<char>) -> Seq<char> {
    name + " ... bench: \t"@ + elapsed + " ms"@
}

/// The message of the error for an index that no program has.
pub open spec fn out_of_bounds_text(index: usize) -> Seq<char> {
    "Index "@ + decimal(index as nat) + " out of bounds"@
}

/// The places below `n` that `keep` accepts, in ascending order.
pub open spec fn positions(n: nat, keep: spec_fn(int) -> bool) -> Seq<usize>
    decreases n,
{
    if n == 0 {
        Seq::empty()
    } else if keep(n - 1) {
        positions((n - 1) as nat, keep).push((n - 1) as usize)
    } else {
        positions((n - 1) as nat, keep)
    }
}

/// The indices of the programs that carry `tag`, in ascending order.
pub open spec fn tagged(programs: Seq<ProgramView>, tag: Seq<char>) -> Seq<usize> {
    positions(programs.len(), |i: int| programs[i].tags.contains(tag))
}

/// Whether `tag` is a tag of one of `programs`.
pub open spec fn is_tag_of(programs: Seq<ProgramView>, tag: Seq<char>) -> bool {
    exists|i: int| 0 <= i < programs.len() && (#[trigger] programs[i]).tags.contains(tag)
}

/// Whether each of `tags` sorts before all that follow it. No text occurs
/// twice in such a sequence.
pub open spec fn ascending(tags: Seq<Seq<char>>) -> bool {
    forall|i: int, j: int| 0 <= i < j < tags.len() ==> text_less(tags[i], tags[j])
}

impl View for System {
    type V = SystemView;

    closed spec fn view(&self) -> SystemView {
        SystemView {
            name: self.name@,
            color: self.color,
            sleep: self.sleep,
            silent: self.silent,
            programs: views_of(self.programs@),
        }
    }
}

impl View for SystemBuilder {
    type V = SystemView;

    closed spec fn view(&self) -> SystemView {
        SystemView {
            name: self.name@,
            color: self.color,
            sleep: self.sleep,
            silent: self.silent,
            programs: views_of(self.programs@),
        }
    }
}

impl System {
    /// The programs in the order in which they were added.
    pub closed spec fn items(&self) -> Seq<Program> {
        self.programs@
    }

    /// What holds once a call of the action of the program at `index` has
    /// returned.
    pub closed spec fn ran_at(&self, index: int) -> bool {
        self.programs[index].ran()
    }

    /// The view of the system lists the views of its programs.
    pub proof fn items_agree(&self)
        ensures
            self@.programs == views_of(self.items()),
            forall|i: int| 0 <= i < self.items().len() ==> self.ran_at(i) == self.items()[i].ran(),
    {
    }

    /// Whether the programs of `other` are those of this system, each with
    /// the action it has here. Settings of the programs may differ.
    pub open spec fn same_actions(&self, other: &System) -> bool {
        self@.programs.len() == other@.programs.len() && forall|i: int|
            0 <= i < self@.programs.len() ==> self.ran_at(i) == other.ran_at(i)
    }

    /// A builder for a system called `name`.
    pub fn builder(name: &str) -> (builder: SystemBuilder)
        ensures
            builder@ == default_system(name@),
    {
        SystemBuilder::new(name)
    }

    /// Replaces the color that programs inherit.
    pub fn set_color(&mut self, color: TermColor)
        ensures
            final(self)@ == (SystemView { color, ..old(self)@ }),
            final(self).same_actions(old(self)),
    {
        self.color = color;
    }

    /// Replaces the delay that programs inherit, in milliseconds.
    pub fn set_sleep(&mut self, sleep: u64)
        ensures
            final(self)@ == (SystemView { sleep, ..old(self)@ }),
            final(self).same_actions(old(self)),
    {
        self.sleep = sleep;
    }

    /// Replaces the silence that programs inherit.
    pub fn set_silence(&mut self, silent: bool)
        ensures
            final(self)@ == (SystemView { silent, ..old(self)@ }),
            final(self).same_actions(old(self)),
    {
        self.silent = silent;
    }

    /// The delay that programs inherit, in milliseconds.
    pub fn get_sleep(&self) -> (sleep: u64)
        ensures
            sleep == self@.sleep,
    {
        self.sleep
    }

    /// The silence that programs inherit.
    pub fn get_silence(&self) -> (silent: bool)
        ensures
            silent == self@.silent,
    {
        self.silent
    }

    /// The color that programs inherit.
    pub fn get_color(&self) -> (color: TermColor)
        ensures
            color == self@.color,
    {
        self.color
    }

    /// The name.
    pub fn name(&self) -> (name: &str)
        ensures
            name@ == self@.name,
    {
        self.name.as_str()
    }

    /// The programs in the order in which they were added.
    pub fn programs(&self) -> (programs: &[Program])
        ensures
            programs@ == self.items(),
            views_of(programs@) == self@.programs,
            forall|i: int| 0 <= i < programs@.len() ==> programs@[i].ran() == self.ran_at(i),
    {
        self.programs.as_slice()
    }

    /// The line that shows `s` as coming from the system, and the delay
    /// that follows it.
    pub fn print(&mut self, s: &str) -> (out: Printout)
        ensures
            is_painted(out.line@, old(self)@.color, old(self)@.name + "> "@ + s@),
            out.pause_ms == old(self)@.sleep,
            final(self)@ == old(self)@,
            final(self).same_actions(old(self)),
    {
        let text = concat3(self.name.as_str(), "> ", s);
        Printout { line: paint(self.color, text.as_str()), pause_ms: self.sleep }
    }

    /// The line that shows `s` as an error of the system, or the word
    /// `Error` where there is no message.
    pub fn err(&self, s: Option<&String>) -> (line: String)
        ensures
            is_painted(
                line@,
                TermColor::Red,
                self@.name + "Error> "@ + (match s {
                    Some(message) => message@,
                    None => "Error"@,
                }),
            ),
    {
        let text = match s {
            Some(message) => concat3(self.name.as_str(), "Error> ", message.as_str()),
            None => concat3(self.name.as_str(), "Error> ", "Error"),
        };
        paint(TermColor::Red, text.as_str())
    }

    /// Adds a program called `name` that runs `run_func`, with the color,
    /// delay and silence that the system holds now. Later changes of the
    /// system's defaults do not reach it.
    pub fn add_program_with_inheritance<F>(&mut self, name: String, run_func: F) where
        F: Fn() + 'static,

        requires
            call_requires(run_func, ()),
        ensures
            final(self)@ == (SystemView {
                programs: old(self)@.programs.push(inherited(old(self)@, name@)),
                ..old(self)@
            }),
            forall|i: int|
                0 <= i < old(self)@.programs.len() ==> final(self).ran_at(i) == old(self).ran_at(i),
            final(self).ran_at(old(self)@.programs.len() as int) == call_ensures(run_func, (), ()),
    {
        let program = Program::builder(name.as_str()).action(run_func).color(self.color).sleep(
            self.sleep,
        ).silent(self.silent).build();
        self.programs.push(program);
        assert(views_of(self.programs@) =~= views_of(old(self).programs@).push(program@));
    }

    /// Adds `prog` behind the programs that are there. A program of the
    /// same name may be there already: both stay.
    pub fn append_program(&mut self, prog: Program)
        ensures
            final(self)@ == (SystemView {
                programs: old(self)@.programs.push(prog@),
                ..old(self)@
            }),
            forall|i: int|
                0 <= i < old(self)@.programs.len() ==> final(self).ran_at(i) == old(self).ran_at(i),
            final(self).ran_at(old(self)@.programs.len() as int) == prog.ran(),
    {
        self.programs.push(prog);
        assert(views_of(self.programs@) =~= views_of(old(self).programs@).push(prog@));
    }

    /// Runs the program at `index`: unless it is silent, hands the line
    /// that announces the run to `show`; then calls its action once. Where
    /// no program has that index, nothing is shown or called and the error
    /// says so.
    pub fn run_program<W: Fn(&str)>(&self, index: usize, show: W) -> (result: Result<
        (),
        CliError,
    >)
        requires
            forall|line: &str| call_requires(show, (line,)),
        ensures
            result is Err <==> index >= self@.programs.len(),
            result matches Err(e) ==> e@ == CliErrorView::ProgramNotFound(
                out_of_bounds_text(index),
            ),
            result is Ok ==> {
                &&& self.ran_at(index as int)
                &&& !self@.programs[index as int].silent ==> was_shown(
                    show,
                    self@.programs[index as int].color,
                    announcement_text(self@.programs[index as int].name),
                )
            },
    {
        if index >= self.programs.len() {
            let number = decimal_text(index as u64);
            let message = concat3("Index ", number.as_str(), " out of bounds");
            return Err(CliError::ProgramNotFound(message));
        }
        self.programs[index].run(show);
        Ok(())
    }
}

impl System {
    /// The indices of the programs that carry `tag`, in ascending order.
    pub fn indices_with_tag(&self, tag: &str) -> (indices: Vec<usize>)
        ensures
            indices@ == tagged(self@.programs, tag@),
    {
        let ghost keep = |i: int| self@.programs[i].tags.contains(tag@);
        let mut indices: Vec<usize> = Vec::new();
        let mut i: usize = 0;
        while i < self.programs.len()
            invariant
                i <= self.programs.len(),
                keep == |i: int| self@.programs[i].tags.contains(tag@),
                indices@ == positions(i as nat, keep),
            decreases self.programs.len() - i,
        {
            if self.programs[i].has_tag(tag) {
                indices.push(i);
            }
            i += 1;
        }
        indices
    }

    /// The programs that carry `tag`, in the order of the registry.
    pub fn programs_with_tag(&self, tag: &str) -> (found: Vec<&Program>)
        ensures
            found@.len() == tagged(self@.programs, tag@).len(),
            forall|k: int|
                0 <= k < found@.len() ==> {
                    let index = #[trigger] tagged(self@.programs, tag@)[k] as int;
                    &&& index < self@.programs.len()
                    &&& found@[k]@ == self@.programs[index]
                    &&& found@[k].ran() == self.ran_at(index)
                },
    {
        let indices = self.indices_with_tag(tag);
        let count = self.programs.len();
        proof {
            assert(self@.programs.len() == count);
            positions_in_range(
                self@.programs.len(),
                |i: int| self@.programs[i].tags.contains(tag@),
            );
        }
        let mut found: Vec<&Program> = Vec::new();
        let mut k: usize = 0;
        while k < indices.len()
            invariant
                k <= indices.len(),
                found@.len() == k,
                forall|j: int| 0 <= j < indices@.len() ==> indices@[j] < self.programs@.len(),
                forall|j: int| 0 <= j < k ==> *found@[j] == self.programs@[indices@[j] as int],
            decreases indices.len() - k,
        {
            found.push(&self.programs[indices[k]]);
            k += 1;
        }
        found
    }

    /// Every tag of every program, once each, in ascending order.
    pub fn all_tags(&self) -> (tags: Vec<String>)
        ensures
            ascending(tags.deep_view()),
            forall|t: Seq<char>| tags.deep_view().contains(t) <==> is_tag_of(self@.programs, t),
    {
        let mut tags: Vec<String> = Vec::new();
        let mut i: usize = 0;
        while i < self.programs.len()
            invariant
                i <= self.programs.len(),
                ascending(tags.deep_view()),
                forall|t: Seq<char>|
                    tags.deep_view().contains(t) <==> is_tag_of(self@.programs.take(i as int), t),
            decreases self.programs.len() - i,
        {
            merge_tags(&mut tags, self.programs[i].tags());
            i += 1;
            proof {
                let now = self@.programs.take(i as int);
                let earlier = self@.programs.take(i - 1);
                assert forall|t: Seq<char>| tags.deep_view().contains(t) <==> is_tag_of(
                    now,
                    t,
                ) by {
                    if is_tag_of(now, t) {
                        let p = choose|p: int| 0 <= p < now.len() && (#[trigger] now[p]).tags.contains(t);
                        if p < i - 1 {
                            assert(earlier[p].tags.contains(t));
                        }
                    }
                    if is_tag_of(earlier, t) {
                        let p = choose|p: int|
                            0 <= p < earlier.len() && (#[trigger] earlier[p]).tags.contains(t);
                        assert(now[p].tags.contains(t));
                    }
                    if self@.programs[i - 1].tags.contains(t) {
                        assert(now[i - 1].tags.contains(t));
                    }
                }
            }
        }
        assert(self@.programs.take(i as int) =~= self@.programs);
        tags
    }
}

/// No text occurs twice in an ascending sequence.
pub proof fn ascending_is_duplicate_free(tags: Seq<Seq<char>>, i: int, j: int)
    requires
        ascending(tags),
        0 <= i < tags.len(),
        0 <= j < tags.len(),
        i != j,
    ensures
        tags[i] != tags[j],
{
    text_less_strict_total(tags[i], tags[j]);
    if i < j {
        assert(text_less(tags[i], tags[j]));
    } else {
        assert(text_less(tags[j], tags[i]));
    }
}

/// Two ascending sequences that hold the same texts are the same
/// sequence: what `all_tags` returns is determined by the tags of the
/// programs.
pub proof fn ascending_is_determined(a: Seq<Seq<char>>, b: Seq<Seq<char>>)
    requires
        ascending(a),
        ascending(b),
        forall|t: Seq<char>| a.contains(t) <==> b.contains(t),
    ensures
        a == b,
    decreases a.len(),
{
    if a.len() == 0 {
        if b.len() > 0 {
            assert(b.contains(b[0]));
        }
        assert(a =~= b);
    } else if b.len() == 0 {
        assert(a.contains(a[0]));
    } else {
        // The last text of each is its greatest, so the two are the same.
        let x = a.last();
        let y = b.last();
        assert(a.contains(x));
        assert(b.contains(y));
        let ix = choose|k: int| 0 <= k < b.len() && b[k] == x;
        let iy = choose|k: int| 0 <= k < a.len() && a[k] == y;
        text_less_strict_total(x, y);
        if x != y {
            if ix < b.len() - 1 {
                assert(text_less(b[ix], b[b.len() - 1]));
            }
            if iy < a.len() - 1 {
                assert(text_less(a[iy], a[a.len() - 1]));
            }
        }
        assert(x == y);
        let a0 = a.drop_last();
        let b0 = b.drop_last();
        assert forall|t: Seq<char>| a0.contains(t) <==> b0.contains(t) by {
            if a0.contains(t) {
                let k = choose|k: int| 0 <= k < a0.len() && a0[k] == t;
                assert(a[k] == t);
                ascending_is_duplicate_free(a, k, a.len() - 1);
                assert(a.contains(t));
                let m = choose|m: int| 0 <= m < b.len() && b[m] == t;
                assert(b0[m] == t);
            }
            if b0.contains(t) {
                let k = choose|k: int| 0 <= k < b0.len() && b0[k] == t;
                assert(b[k] == t);
                ascending_is_duplicate_free(b, k, b.len() - 1);
                assert(b.contains(t));
                let m = choose|m: int| 0 <= m < a.len() && a[m] == t;
                assert(a0[m] == t);
            }
        }
        assert(ascending(a0)) by {
            assert forall|i: int, j: int| 0 <= i < j < a0.len() implies text_less(
                a0[i],
                a0[j],
            ) by {
                assert(text_less(a[i], a[j]));
            }
        }
        assert(ascending(b0)) by {
            assert forall|i: int, j: int| 0 <= i < j < b0.len() implies text_less(
                b0[i],
                b0[j],
            ) by {
                assert(text_less(b[i], b[j]));
            }
        }
        ascending_is_determined(a0, b0);
        assert(a =~= a0.push(x));
        assert(b =~= b0.push(y));
    }
}

/// The registry of `system` after each of `added` was appended in order.
pub open spec fn after_appends(system: SystemView, added: Seq<ProgramView>) -> SystemView
    decreases added.len(),
{
    if added.len() == 0 {
        system
    } else {
        let before = after_appends(system, added.drop_last());
        SystemView { programs: before.programs.push(added.last()), ..before }
    }
}

/// Appending programs changes nothing but the registry, which grows by
/// exactly the programs that were appended, in their order: none is
/// dropped or merged, whatever its name.
pub proof fn appends_are_retained(system: SystemView, added: Seq<ProgramView>)
    ensures
        after_appends(system, added) == (SystemView {
            programs: system.programs + added,
            ..system
        }),
        after_appends(system, added).programs.len() == system.programs.len() + added.len(),
    decreases added.len(),
{
    if added.len() == 0 {
        assert(system.programs + added =~= system.programs);
    } else {
        appends_are_retained(system, added.drop_last());
        assert((system.programs + added.drop_last()).push(added.last()) =~= system.programs
            + added);
    }
}

/// Forcing the silence of a program on and giving it its silence back
/// leaves the system as it was; in between the program is silent and every
/// other program is as it was.
pub proof fn bench_restores_silence(system: SystemView, index: int)
    requires
        0 <= index < system.programs.len(),
    ensures
        with_silence(system, index, true).programs[index].silent,
        forall|i: int|
            0 <= i < system.programs.len() && i != index ==> with_silence(
                system,
                index,
                true,
            ).programs[i] == system.programs[i],
        with_silence(
            with_silence(system, index, true),
            index,
            system.programs[index].silent,
        ) == system,
{
    let during = with_silence(system, index, true);
    let after = with_silence(during, index, system.programs[index].silent);
    assert(after.programs =~= system.programs);
}

/// Every place in `positions(n, keep)` lies below `n`.
pub proof fn positions_in_range(n: nat, keep: spec_fn(int) -> bool)
    requires
        n <= usize::MAX,
    ensures
        forall|k: int| 0 <= k < positions(n, keep).len() ==> (#[trigger] positions(n, keep)[k]) < n,
    decreases n,
{
    if n > 0 {
        positions_in_range((n - 1) as nat, keep);
        let shorter = positions((n - 1) as nat, keep);
        assert forall|k: int| 0 <= k < positions(n, keep).len() implies (#[trigger] positions(
            n,
            keep,
        )[k]) < n by {
            if k < shorter.len() {
                assert(positions(n, keep)[k] == shorter[k]);
            }
        }
    }
}

/// Puts `tag` at its place in the ascending `tags`, unless it is there.
fn insert_tag(tags: &mut Vec<String>, tag: &str)
    requires
        ascending(old(tags).deep_view()),
    ensures
        ascending(final(tags).deep_view()),
        forall|t: Seq<char>|
            final(tags).deep_view().contains(t) <==> old(tags).deep_view().contains(t) || t == tag@,
{
    let mut pos: usize = 0;
    while pos < tags.len() && !precedes(tag, tags[pos].as_str())
        invariant
            pos <= tags.len(),
            *tags == *old(tags),
            ascending(tags.deep_view()),
            forall|j: int| 0 <= j < pos ==> text_less(tags[j]@, tag@),
        decreases tags.len() - pos,
    {
        if same_text(tags[pos].as_str(), tag) {
            assert(tags.deep_view()[pos as int] == tag@);
            return ;
        }
        proof {
            text_less_strict_total(tags[pos as int]@, tag@);
        }
        pos += 1;
    }
    let ghost before = tags.deep_view();
    tags.insert(pos, tag.to_owned());
    proof {
        let after = tags.deep_view();
        assert(after =~= before.insert(pos as int, tag@));
        assert forall|i: int, j: int| 0 <= i < j < after.len() implies text_less(
            after[i],
            after[j],
        ) by {
            if j == pos {
            } else if i == pos {
                if j > pos + 1 {
                    text_less_transitive(tag@, before[pos as int], before[j - 1]);
                }
            } else if i < pos && pos < j {
                assert(text_less(before[i], before[j - 1]));
            } else if j < pos {
                assert(text_less(before[i], before[j]));
            } else {
                assert(text_less(before[i - 1], before[j - 1]));
            }
        }
        assert forall|t: Seq<char>| after.contains(t) <==> before.contains(t) || t == tag@ by {
            if before.contains(t) {
                let k = choose|k: int| 0 <= k < before.len() && before[k] == t;
                if k < pos {
                    assert(after[k] == t);
                } else {
                    assert(after[k + 1] == t);
                }
            }
            if t == tag@ {
                assert(after[pos as int] == t);
            }
            if after.contains(t) {
                let k = choose|k: int| 0 <= k < after.len() && after[k] == t;
                if k < pos {
                    assert(before[k] == t);
                } else if k > pos {
                    assert(before[k - 1] == t);
                }
            }
        }
    }
}

/// Puts each of `more` at its place in the ascending `tags`, unless it is
/// there.
fn merge_tags(tags: &mut Vec<String>, more: &Vec<String>)
    requires
        ascending(old(tags).deep_view()),
    ensures
        ascending(final(tags).deep_view()),
        forall|t: Seq<char>|
            final(tags).deep_view().contains(t) <==> old(tags).deep_view().contains(t)
                || more.deep_view().contains(t),
{
    let mut k: usize = 0;
    while k < more.len()
        invariant
            k <= more.len(),
            ascending(tags.deep_view()),
            forall|t: Seq<char>|
                tags.deep_view().contains(t) <==> old(tags).deep_view().contains(t)
                    || more.deep_view().take(k as int).contains(t),
        decreases more.len() - k,
    {
        insert_tag(tags, more[k].as_str());
        k += 1;
        proof {
            let now = more.deep_view().take(k as int);
            let earlier = more.deep_view().take(k - 1);
            assert forall|t: Seq<char>| now.contains(t) <==> earlier.contains(t) || t == more[k
                - 1]@ by {
                if earlier.contains(t) {
                    let q = choose|q: int| 0 <= q < earlier.len() && earlier[q] == t;
                    assert(now[q] == t);
                }
                if t == more[k - 1]@ {
                    assert(now[k - 1] == t);
                }
                if now.contains(t) {
                    let q = choose|q: int| 0 <= q < now.len() && now[q] == t;
                    if q < k - 1 {
                        assert(earlier[q] == t);
                    }
                }
            }
        }
    }
    assert(more.deep_view().take(k as int) =~= more.deep_view());
}

impl System {
    /// Prepares the program at `index` for a timed run: forces its silence
    /// on and returns the silence it had. Where no program has that index,
    /// nothing changes.
    pub fn bench_begin(&mut self, index: usize) -> (previous: Option<bool>)
        ensures
            previous is None <==> index >= old(self)@.programs.len(),
            previous is None ==> final(self)@ == old(self)@,
            previous matches Some(flag) ==> flag == old(self)@.programs[index as int].silent
                && final(self)@ == with_silence(old(self)@, index as int, true),
            final(self).same_actions(old(self)),
    {
        if index >= self.programs.len() {
            return None;
        }
        let flag = self.programs[index].get_silence();
        self.programs[index].set_silence(true);
        assert(views_of(self.programs@) =~= with_silence(old(self)@, index as int, true).programs);
        Some(flag)
    }

    /// Ends the timed run of the program at `index`: gives it the silence
    /// `previous` back and returns the line that reports `elapsed`, the
    /// time in milliseconds as it is to be shown. Where no program has that
    /// index, nothing changes.
    pub fn bench_end(&mut self, index: usize, previous: bool, elapsed: &str) -> (line: Option<
        String,
    >)
        ensures
            line is None <==> index >= old(self)@.programs.len(),
            line is None ==> final(self)@ == old(self)@,
            line matches Some(l) ==> l@ == bench_text(
                old(self)@.programs[index as int].name,
                elapsed@,
            ) && final(self)@ == with_silence(old(self)@, index as int, previous),
            final(self).same_actions(old(self)),
    {
        if index >= self.programs.len() {
            return None;
        }
        self.programs[index].set_silence(previous);
        assert(views_of(self.programs@) =~= with_silence(
            old(self)@,
            index as int,
            previous,
        ).programs);
        let mut line = concat3(self.programs[index].name(), " ... bench: \t", elapsed);
        line.append(" ms");
        Some(line)
    }
}

impl SystemBuilder {
    /// What holds once a call of the action of the program at `index` has
    /// returned.
    pub closed spec fn ran_at(&self, index: int) -> bool {
        self.programs[index].ran()
    }

    /// A builder for a system called `name`: green, a delay of 100
    /// milliseconds, not silent, no programs.
    pub fn new(name: &str) -> (builder: Self)
        ensures
            builder@ == default_system(name@),
    {
        let builder = Self {
            name: name.to_owned(),
            color: TermColor::Green,
            sleep: 100,
            silent: false,
            programs: Vec::new(),
        };
        assert(views_of(builder.programs@) =~= Seq::<ProgramView>::empty());
        builder
    }

    /// Resets color, delay and silence to their defaults. Programs stay.
    pub fn use_defaults(self) -> (builder: Self)
        ensures
            builder@ == (SystemView {
                programs: self@.programs,
                ..default_system(self@.name)
            }),
            forall|i: int| 0 <= i < self@.programs.len() ==> builder.ran_at(i) == self.ran_at(i),
    {
        self.color(TermColor::Green).sleep(100).silent(false)
    }

    /// Sets the color that programs inherit.
    pub fn color(self, color: TermColor) -> (builder: Self)
        ensures
            builder@ == (SystemView { color, ..self@ }),
            forall|i: int| 0 <= i < self@.programs.len() ==> builder.ran_at(i) == self.ran_at(i),
    {
        let mut builder = self;
        builder.color = color;
        builder
    }

    /// Sets the delay that programs inherit, in milliseconds.
    pub fn sleep(self, sleep: u64) -> (builder: Self)
        ensures
            builder@ == (SystemView { sleep, ..self@ }),
            forall|i: int| 0 <= i < self@.programs.len() ==> builder.ran_at(i) == self.ran_at(i),
    {
        let mut builder = self;
        builder.sleep = sleep;
        builder
    }

    /// Sets the silence that programs inherit.
    pub fn silent(self, silent: bool) -> (builder: Self)
        ensures
            builder@ == (SystemView { silent, ..self@ }),
            forall|i: int| 0 <= i < self@.programs.len() ==> builder.ran_at(i) == self.ran_at(i),
    {
        let mut builder = self;
        builder.silent = silent;
        builder
    }

    /// Adds a program called `name` that runs `run_func`, with the color,
    /// delay and silence that the builder holds now. Later changes of the
    /// builder's defaults do not reach it.
    pub fn add_program_with_inheritance<F>(self, name: String, run_func: F) -> (builder: Self) where
        F: Fn() + 'static,

        requires
            call_requires(run_func, ()),
        ensures
            builder@ == (SystemView {
                programs: self@.programs.push(inherited(self@, name@)),
                ..self@
            }),
            forall|i: int| 0 <= i < self@.programs.len() ==> builder.ran_at(i) == self.ran_at(i),
            builder.ran_at(self@.programs.len() as int) == call_ensures(run_func, (), ()),
    {
        let program = Program::builder(name.as_str()).action(run_func).color(self.color).sleep(
            self.sleep,
        ).silent(self.silent).build();
        let mut builder = self;
        builder.programs.push(program);
        assert(views_of(builder.programs@) =~= views_of(self.programs@).push(program@));
        builder
    }

    /// Adds `prog` behind the programs that are there.
    pub fn append_program(self, prog: Program) -> (builder: Self)
        ensures
            builder@ == (SystemView { programs: self@.programs.push(prog@), ..self@ }),
            forall|i: int| 0 <= i < self@.programs.len() ==> builder.ran_at(i) == self.ran_at(i),
            builder.ran_at(self@.programs.len() as int) == prog.ran(),
    {
        let mut builder = self;
        builder.programs.push(prog);
        assert(views_of(builder.programs@) =~= views_of(self.programs@).push(prog@));
        builder
    }

    /// The system with the settings and the programs of this builder.
    pub fn build(self) -> (system: System)
        ensures
            system@ == self@,
            forall|i: int| 0 <= i < self@.programs.len() ==> system.ran_at(i) == self.ran_at(i),
    {
        System {
            name: self.name,
            color: self.color,
            sleep: self.sleep,
            silent: self.silent,
            programs: self.programs,
        }
    }
}

} // verus!
