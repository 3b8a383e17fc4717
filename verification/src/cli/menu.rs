//! Menus: which programs a menu shows, how its lines look, and what a typed
//! line selects.
//!
//! A menu shows a rendered set: an ascending sequence of indices into the
//! registry. Its entries are numbered in one of two ways, and the number in
//! front of an entry is the number to type for it.

use vstd::prelude::*;
use vstd::string::StringExecFns;

use crate::cli::program::Program;
use crate::cli::program::ProgramView;
use crate::cli::system::positions;
use crate::cli::system::positions_in_range;
use crate::cli::system::tagged;
use crate::cli::system::System;
use crate::cli::system::SystemView;
use crate::style::all_fit;
use crate::style::fits;
use crate::style::entry_text;
use crate::style::paint;
use crate::style::slant;
use crate::style::Pattern;
use crate::text::concat2;
use crate::text::decimal;
use crate::text::decimal_reads_back;
use crate::text::decimal_text;
use crate::text::join;
use crate::text::joined;
use crate::text::pad_right;
use crate::text::padded;
use crate::text::parse_index;
use crate::text::parsed_index;
use crate::text::same_text;
use crate::text::tight_text_is_trimmed;
use crate::text::trim;
use crate::text::trimmed;
use crate::TermColor;

verus! {

/// How the entries of a menu are numbered.
#[derive(Clone, Copy, Debug, PartialEq, Eq)]
pub enum Numbering {
    /// Each entry carries its index in the registry.
    Storage,
    /// The entries are numbered from 0 in the order in which they are shown.
    Position,
}

/// A menu as it is shown: the rendered set, its numbering and its lines.
pub struct MenuPage {
    indices: Vec<usize>,
    numbering: Numbering,
    lines: Vec<String>,
}

/// The mathematical content of a [`MenuPage`].
pub struct MenuPageView {
    pub indices: Seq<usize>,
    pub numbering: Numbering,
    pub lines: Seq<Seq<char>>,
}

impl View for MenuPage {
    type V = MenuPageView;

    closed spec fn view(&self) -> MenuPageView {
        MenuPageView {
            indices: self.indices@,
            numbering: self.numbering,
            lines: self.lines.deep_view(),
        }
    }
}

/// What a typed line asks for.
#[derive(Debug)]
pub enum Selection {
    /// Benchmark these programs, in this order. Nothing is selected.
    Bench(Vec<usize>),
    /// The line is no number of an entry. Nothing is selected.
    Invalid,
    /// Run the program at `index` of the registry; `number` is the number
    /// that was typed, and the selection.
    Run { number: usize, index: usize },
}

/// The mathematical content of a [`Selection`].
pub enum SelectionView {
    Bench(Seq<usize>),
    Invalid,
    Run { number: usize, index: usize },
}

impl View for Selection {
    type V = SelectionView;

    open spec fn view(&self) -> SelectionView {
        match self {
            Selection::Bench(indices) => SelectionView::Bench(indices@),
            Selection::Invalid => SelectionView::Invalid,
            Selection::Run { number, index } => SelectionView::Run {
                number: *number,
                index: *index,
            },
        }
    }
}

/// Whether `indices` is a rendered set of a registry of `count` programs:
/// ascending, and each index that of a program.
pub open spec fn is_rendered_set(indices: Seq<usize>, count: nat) -> bool {
    &&& forall|k: int| 0 <= k < indices.len() ==> (#[trigger] indices[k]) < count
    &&& forall|j: int, k: int| 0 <= j < k < indices.len() ==> indices[j] < indices[k]
}

/// The number in front of the entry at place `k`.
pub open spec fn shown_number(indices: Seq<usize>, numbering: Numbering, k: int) -> usize {
    match numbering {
        Numbering::Storage => indices[k],
        Numbering::Position => k as usize,
    }
}

/// The lines of one entry: the entry itself, and its tags where it has any.
pub open spec fn entry_patterns(color: TermColor, number: usize, program: ProgramView) -> Seq<
    Pattern,
> {
    let entry = Pattern::Entry {
        color,
        label: decimal(number as nat) + ")"@,
        name: program.name,
        description: program.description,
    };
    if program.tags.len() > 0 {
        seq![entry, Pattern::Tags(joined(program.tags, ", "@))]
    } else {
        seq![entry]
    }
}

/// The lines of the menu that shows `indices` of `system`.
pub open spec fn menu_patterns(
    system: SystemView,
    indices: Seq<usize>,
    numbering: Numbering,
) -> Seq<Pattern>
    decreases indices.len(),
{
    if indices.len() == 0 {
        Seq::empty()
    } else {
        menu_patterns(system, indices.drop_last(), numbering) + entry_patterns(
            system.color,
            shown_number(indices, numbering, indices.len() - 1),
            system.programs[indices.last() as int],
        )
    }
}

/// What `line` selects on a menu that shows `indices`. The line counts
/// without its leading and trailing white space: the word `bench` asks for
/// a benchmark of the rendered set; a number of an entry selects that
/// entry; anything else is invalid.
pub open spec fn selected(indices: Seq<usize>, numbering: Numbering, line: Seq<char>) -> SelectionView {
    if trimmed(line) == "bench"@ {
        SelectionView::Bench(indices)
    } else {
        match parsed_index(trimmed(line)) {
            None => SelectionView::Invalid,
            Some(number) => match numbering {
                Numbering::Position => if number < indices.len() {
                    SelectionView::Run { number, index: indices[number as int] }
                } else {
                    SelectionView::Invalid
                },
                Numbering::Storage => if indices.contains(number) {
                    SelectionView::Run { number, index: number }
                } else {
                    SelectionView::Invalid
                },
            },
        }
    }
}

/// Whether program `p` carries each of `tags`.
pub open spec fn has_all_tags(p: ProgramView, tags: Seq<Seq<char>>) -> bool {
    forall|k: int| 0 <= k < tags.len() ==> p.tags.contains(#[trigger] tags[k])
}

/// The indices of the programs that carry each of `tags`, in ascending
/// order.
pub open spec fn tagged_with_all(programs: Seq<ProgramView>, tags: Seq<Seq<char>>) -> Seq<usize> {
    positions(programs.len(), |i: int| has_all_tags(programs[i], tags))
}

/// Every index below `count`, in ascending order.
pub open spec fn storage_order(count: nat) -> Seq<usize> {
    positions(count, |i: int| true)
}

/// The line of one menu entry.
fn entry_line(color: TermColor, number: usize, program: &Program) -> (line: String)
    ensures
        fits(
            line@,
            Pattern::Entry {
                color,
                label: decimal(number as nat) + ")"@,
                name: program@.name,
                description: program@.description,
            },
        ),
{
    let digits = decimal_text(number as u64);
    let label = concat2(digits.as_str(), ")");
    let label_cell = pad_right(label.as_str(), 5);
    let name_cell = pad_right(program.name(), 30);
    let a = paint(color, label_cell.as_str());
    let b = paint(color, name_cell.as_str());
    let mut line = concat2(a.as_str(), " ");
    line.append(b.as_str());
    line.append(" ");
    line.append(program.description());
    proof {
        let label_on = a@ != label_cell@;
        let name_on = b@ != name_cell@;
        assert(line@ == entry_text(
            label_on,
            name_on,
            color,
            decimal(number as nat) + ")"@,
            program@.name,
            program@.description,
        ));
    }
    line
}

/// The line that shows the tags of a menu entry.
fn tags_line(program: &Program) -> (line: String)
    ensures
        fits(line@, Pattern::Tags(joined(program@.tags, ", "@))),
{
    let list = join(program.tags(), ", ");
    let t = slant(list.as_str());
    concat2("     Tags: ", t.as_str())
}

/// The lines of the menu that shows `indices` of `system`.
fn render(system: &System, indices: &Vec<usize>, numbering: Numbering) -> (lines: Vec<String>)
    requires
        is_rendered_set(indices@, system@.programs.len()),
    ensures
        all_fit(lines.deep_view(), menu_patterns(system@, indices@, numbering)),
{
    let programs = system.programs();
    let color = system.get_color();
    let mut lines: Vec<String> = Vec::new();
    let mut k: usize = 0;
    assert(indices@.take(0) =~= Seq::<usize>::empty());
    while k < indices.len()
        invariant
            k <= indices.len(),
            is_rendered_set(indices@, system@.programs.len()),
            programs@ == system.items(),
            crate::cli::system::views_of(programs@) == system@.programs,
            color == system@.color,
            all_fit(
                lines.deep_view(),
                menu_patterns(system@, indices@.take(k as int), numbering),
            ),
        decreases indices.len() - k,
    {
        let index = indices[k];
        let number = match numbering {
            Numbering::Storage => index,
            Numbering::Position => k,
        };
        let program = &programs[index];
        let ghost before = lines.deep_view();
        let ghost earlier = menu_patterns(system@, indices@.take(k as int), numbering);
        let ghost now = indices@.take(k + 1);
        proof {
            assert(now.drop_last() =~= indices@.take(k as int));
            assert(now.last() == index);
            assert(shown_number(now, numbering, k as int) == number);
            assert(program@ == system@.programs[index as int]);
            assert(menu_patterns(system@, now, numbering) == earlier + entry_patterns(
                color,
                number,
                program@,
            ));
        }
        let first = entry_line(color, number, program);
        lines.push(first);
        if program.tags().len() > 0 {
            let second = tags_line(program);
            lines.push(second);
            proof {
                let after = lines.deep_view();
                assert(after =~= before.push(first@).push(second@));
                let patterns = menu_patterns(system@, now, numbering);
                assert(patterns.len() == earlier.len() + 2);
                assert forall|i: int| 0 <= i < after.len() implies fits(
                    #[trigger] after[i],
                    patterns[i],
                ) by {
                    if i < before.len() {
                        assert(after[i] == before[i]);
                        assert(patterns[i] == earlier[i]);
                    }
                }
            }
        } else {
            proof {
                let after = lines.deep_view();
                assert(after =~= before.push(first@));
                let patterns = menu_patterns(system@, now, numbering);
                assert(patterns.len() == earlier.len() + 1);
                assert forall|i: int| 0 <= i < after.len() implies fits(
                    #[trigger] after[i],
                    patterns[i],
                ) by {
                    if i < before.len() {
                        assert(after[i] == before[i]);
                        assert(patterns[i] == earlier[i]);
                    }
                }
            }
        }
        k += 1;
    }
    assert(indices@.take(k as int) =~= indices@);
    lines
}

/// `positions` lists places in ascending order.
pub proof fn positions_ascend(n: nat, keep: spec_fn(int) -> bool)
    requires
        n <= usize::MAX,
    ensures
        is_rendered_set(positions(n, keep), n),
    decreases n,
{
    positions_in_range(n, keep);
    if n > 0 {
        positions_ascend((n - 1) as nat, keep);
        positions_in_range((n - 1) as nat, keep);
        let shorter = positions((n - 1) as nat, keep);
        let all = positions(n, keep);
        assert forall|j: int, k: int| 0 <= j < k < all.len() implies all[j] < all[k] by {
            if k < shorter.len() {
                assert(all[j] == shorter[j] && all[k] == shorter[k]);
            } else {
                assert(all[j] == shorter[j]);
            }
        }
    }
}

/// `positions` lists exactly the places that `keep` accepts.
pub proof fn positions_hold_the_kept(n: nat, keep: spec_fn(int) -> bool, i: int)
    requires
        n <= usize::MAX,
        0 <= i < n,
    ensures
        positions(n, keep).contains(i as usize) <==> keep(i),
    decreases n,
{
    let all = positions(n, keep);
    let shorter = positions((n - 1) as nat, keep);
    positions_in_range((n - 1) as nat, keep);
    if i < n - 1 {
        positions_hold_the_kept((n - 1) as nat, keep, i);
        if shorter.contains(i as usize) {
            let k = choose|k: int| 0 <= k < shorter.len() && shorter[k] == i as usize;
            assert(all[k] == i as usize);
        }
        if all.contains(i as usize) {
            let k = choose|k: int| 0 <= k < all.len() && all[k] == i as usize;
            assert(shorter[k] == i as usize);
        }
    } else {
        if keep(i) {
            assert(all[all.len() - 1] == i as usize);
        }
        if all.contains(i as usize) {
            let k = choose|k: int| 0 <= k < all.len() && all[k] == i as usize;
            if !keep(i) {
                assert(shorter[k] < n - 1);
            }
        }
    }
}

/// In a rendered set no index is smaller than its place, so that a
/// rendered set is no longer than the registry.
pub proof fn rendered_set_is_short(indices: Seq<usize>, count: nat, k: int)
    requires
        is_rendered_set(indices, count),
        0 <= k < indices.len(),
    ensures
        k <= indices[k],
        k < count,
    decreases k,
{
    if k > 0 {
        rendered_set_is_short(indices, count, k - 1);
        assert(indices[k - 1] < indices[k]);
    }
    assert(indices[k] < count);
}

/// Typing the number in front of an entry selects that entry. On a page
/// numbered by position the numbers are 0, 1, 2 and so on, whatever the
/// indices of the programs; on a page numbered by storage each number is
/// the index of its program.
pub proof fn shown_number_selects(indices: Seq<usize>, numbering: Numbering, count: nat, k: int)
    requires
        is_rendered_set(indices, count),
        count <= usize::MAX,
        0 <= k < indices.len(),
    ensures
        numbering == Numbering::Position ==> shown_number(indices, numbering, k) == k,
        numbering == Numbering::Storage ==> shown_number(indices, numbering, k) == indices[k],
        selected(indices, numbering, decimal(shown_number(indices, numbering, k) as nat))
            == (SelectionView::Run {
            number: shown_number(indices, numbering, k),
            index: indices[k],
        }),
{
    rendered_set_is_short(indices, count, k);
    decimal_reads_back(shown_number(indices, numbering, k));
}

/// A number that is no index of the registry selects nothing, however the
/// page is numbered.
pub proof fn number_out_of_range_is_invalid(
    indices: Seq<usize>,
    numbering: Numbering,
    count: nat,
    number: usize,
)
    requires
        is_rendered_set(indices, count),
        number >= count,
    ensures
        selected(indices, numbering, decimal(number as nat)) == SelectionView::Invalid,
{
    decimal_reads_back(number);
    if indices.len() > 0 {
        rendered_set_is_short(indices, count, indices.len() - 1);
    }
}

/// The word `bench`, with or without white space around it, asks for a
/// benchmark of exactly the rendered set and selects nothing, on every
/// menu.
pub proof fn bench_covers_the_rendered_set(
    indices: Seq<usize>,
    numbering: Numbering,
    line: Seq<char>,
)
    requires
        trimmed(line) == "bench"@,
    ensures
        selected(indices, numbering, line) == SelectionView::Bench(indices),
        selected(indices, numbering, "bench"@) == SelectionView::Bench(indices),
{
    reveal_strlit("bench");
    assert("bench"@[0] == 'b' && "bench"@.last() == 'h');
    tight_text_is_trimmed("bench"@);
}

impl MenuPage {
    /// The rendered set: the indices of the programs that the menu shows,
    /// in the order in which it shows them.
    pub fn indices(&self) -> (indices: &Vec<usize>)
        ensures
            indices@ == self@.indices,
    {
        &self.indices
    }

    /// How the entries are numbered.
    pub fn numbering(&self) -> (numbering: Numbering)
        ensures
            numbering == self@.numbering,
    {
        self.numbering
    }

    /// The lines of the menu, top to bottom.
    pub fn lines(&self) -> (lines: &Vec<String>)
        ensures
            lines.deep_view() == self@.lines,
    {
        &self.lines
    }

    /// What the typed `line` selects on this menu; white space around it
    /// does not count. The page and the registry stay as they are.
    pub fn select(&self, line: &str) -> (choice: Selection)
        ensures
            choice@ == selected(self@.indices, self@.numbering, line@),
    {
        let word = trim(line);
        if same_text(word.as_str(), "bench") {
            return Selection::Bench(self.indices.clone());
        }
        match parse_index(word.as_str()) {
            None => Selection::Invalid,
            Some(number) => match self.numbering {
                Numbering::Position => {
                    if number < self.indices.len() {
                        Selection::Run { number, index: self.indices[number] }
                    } else {
                        Selection::Invalid
                    }
                },
                Numbering::Storage => {
                    if shows(&self.indices, number) {
                        Selection::Run { number, index: number }
                    } else {
                        Selection::Invalid
                    }
                },
            },
        }
    }
}

impl Selection {
    /// The selection that a menu call reports: the number that was typed
    /// where a program is to run, and nothing otherwise.
    pub fn selection(&self) -> (number: Option<usize>)
        ensures
            number == match self@ {
                SelectionView::Run { number, index } => Some(number),
                _ => None::<usize>,
            },
    {
        match self {
            Selection::Run { number, index: _ } => Some(*number),
            _ => None,
        }
    }

    /// The line to show for a selection that is invalid, and nothing
    /// otherwise.
    pub fn notice(&self) -> (line: Option<String>)
        ensures
            line is Some <==> self@ is Invalid,
            line matches Some(l) ==> l@ == "invalid input"@,
    {
        match self {
            Selection::Invalid => Some("invalid input".to_owned()),
            _ => None,
        }
    }
}

impl System {
    /// The menu of all programs. Each entry carries its index in the
    /// registry.
    pub fn menu(&self) -> (page: MenuPage)
        ensures
            page@.indices == storage_order(self@.programs.len()),
            is_rendered_set(page@.indices, self@.programs.len()),
            page@.numbering == Numbering::Storage,
            all_fit(page@.lines, menu_patterns(self@, page@.indices, page@.numbering)),
    {
        let count = self.programs().len();
        let ghost keep = |i: int| true;
        let mut indices: Vec<usize> = Vec::new();
        let mut i: usize = 0;
        while i < count
            invariant
                i <= count,
                keep == |i: int| true,
                indices@ == positions(i as nat, keep),
            decreases count - i,
        {
            indices.push(i);
            i += 1;
        }
        proof {
            positions_ascend(count as nat, keep);
        }
        let lines = render(self, &indices, Numbering::Storage);
        MenuPage { indices, numbering: Numbering::Storage, lines }
    }

    /// The menu of the programs that `filter` accepts, or of all programs
    /// where there is no filter. Each entry carries its index in the
    /// registry.
    pub fn menu_complex_filter<F: Fn(&Program) -> bool>(&self, filter: Option<F>) -> (page:
        MenuPage)
        requires
            filter matches Some(f) ==> forall|i: int|
                0 <= i < self.items().len() ==> call_requires(f, (&#[trigger] self.items()[i],)),
        ensures
            page@.numbering == Numbering::Storage,
            is_rendered_set(page@.indices, self@.programs.len()),
            filter is None ==> page@.indices == storage_order(self@.programs.len()),
            filter matches Some(f) ==> forall|i: int|
                0 <= i < self.items().len() ==> call_ensures(
                    f,
                    (&#[trigger] self.items()[i],),
                    page@.indices.contains(i as usize),
                ),
            all_fit(page@.lines, menu_patterns(self@, page@.indices, page@.numbering)),
    {
        match filter {
            None => self.menu(),
            Some(f) => {
                let programs = self.programs();
                let mut indices: Vec<usize> = Vec::new();
                let mut i: usize = 0;
                while i < programs.len()
                    invariant
                        i <= programs.len(),
                        programs@ == self.items(),
                        programs@.len() == self@.programs.len(),
                        forall|j: int|
                            0 <= j < self.items().len() ==> call_requires(
                                f,
                                (&#[trigger] self.items()[j],),
                            ),
                        is_rendered_set(indices@, i as nat),
                        forall|j: int|
                            0 <= j < i ==> call_ensures(
                                f,
                                (&#[trigger] self.items()[j],),
                                indices@.contains(j as usize),
                            ),
                    decreases programs.len() - i,
                {
                    let ghost before = indices@;
                    let keep = f(&programs[i]);
                    if keep {
                        indices.push(i);
                    }
                    proof {
                        assert forall|j: int| 0 <= j <= i implies call_ensures(
                            f,
                            (&#[trigger] self.items()[j],),
                            indices@.contains(j as usize),
                        ) by {
                            if j < i {
                                if before.contains(j as usize) {
                                    let k = choose|k: int|
                                        0 <= k < before.len() && before[k] == j as usize;
                                    assert(indices@[k] == j as usize);
                                }
                                assert(indices@.contains(j as usize) == before.contains(j as usize));
                            } else if keep {
                                assert(indices@[indices@.len() - 1] == i);
                            }
                        }
                    }
                    i += 1;
                }
                let lines = render(self, &indices, Numbering::Storage);
                MenuPage { indices, numbering: Numbering::Storage, lines }
            },
        }
    }

    /// The menu of the programs that carry every one of `tags`, numbered
    /// from 0.
    pub fn menu_with_tags_filter(&self, tags: Vec<String>) -> (page: MenuPage)
        ensures
            page@.indices == tagged_with_all(self@.programs, tags.deep_view()),
            is_rendered_set(page@.indices, self@.programs.len()),
            page@.numbering == Numbering::Position,
            all_fit(page@.lines, menu_patterns(self@, page@.indices, page@.numbering)),
    {
        let programs = self.programs();
        let ghost keep = |i: int| has_all_tags(self@.programs[i], tags.deep_view());
        let mut indices: Vec<usize> = Vec::new();
        let mut i: usize = 0;
        while i < programs.len()
            invariant
                i <= programs.len(),
                programs@ == self.items(),
                crate::cli::system::views_of(programs@) == self@.programs,
                keep == |i: int| has_all_tags(self@.programs[i], tags.deep_view()),
                indices@ == positions(i as nat, keep),
            decreases programs.len() - i,
        {
            if carries_all(&programs[i], &tags) {
                indices.push(i);
            }
            i += 1;
        }
        proof {
            positions_ascend(programs@.len(), keep);
        }
        let lines = render(self, &indices, Numbering::Position);
        MenuPage { indices, numbering: Numbering::Position, lines }
    }

    /// The menu of the programs that carry `tag`, numbered from 0.
    pub fn show_tagged_menu(&self, tag: &str) -> (page: MenuPage)
        ensures
            page@.indices == tagged(self@.programs, tag@),
            is_rendered_set(page@.indices, self@.programs.len()),
            page@.numbering == Numbering::Position,
            all_fit(page@.lines, menu_patterns(self@, page@.indices, page@.numbering)),
    {
        let indices = self.indices_with_tag(tag);
        let count = self.programs().len();
        proof {
            positions_ascend(count as nat, |i: int| self@.programs[i].tags.contains(tag@));
        }
        let lines = render(self, &indices, Numbering::Position);
        MenuPage { indices, numbering: Numbering::Position, lines }
    }
}

/// Whether `number` is one of `indices`.
fn shows(indices: &Vec<usize>, number: usize) -> (found: bool)
    ensures
        found == indices@.contains(number),
{
    let mut k: usize = 0;
    while k < indices.len()
        invariant
            k <= indices.len(),
            forall|j: int| 0 <= j < k ==> indices@[j] != number,
        decreases indices.len() - k,
    {
        if indices[k] == number {
            return true;
        }
        k += 1;
    }
    false
}

/// Whether `program` carries each of `tags`.
fn carries_all(program: &Program, tags: &Vec<String>) -> (all: bool)
    ensures
        all == has_all_tags(program@, tags.deep_view()),
{
    let mut k: usize = 0;
    while k < tags.len()
        invariant
            k <= tags.len(),
            forall|j: int| 0 <= j < k ==> program@.tags.contains(#[trigger] tags.deep_view()[j]),
        decreases tags.len() - k,
    {
        if !program.has_tag(tags[k].as_str()) {
            assert(!program@.tags.contains(tags.deep_view()[k as int]));
            return false;
        }
        k += 1;
    }
    true
}

} // verus!
