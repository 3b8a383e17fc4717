//! A general purpose menu for picking a function to run.

use vstd::prelude::*;
use vstd::string::StringExecFns;

use crate::cli::action::Action;
use crate::text::decimal;
use crate::text::decimal_text;
use crate::text::pad_right;
use crate::text::padded;
use crate::text::parse_number;
use crate::text::parsed_number;

verus! {

/// A named list of items, each a name and a function to run.
pub struct Menu {
    name: String,
    items: Vec<Item>,
}

struct Item {
    name: String,
    func: Box<dyn Action>,
}

/// The mathematical content of a [`Menu`]: its name and the names of its
/// items in order.
pub struct MenuView {
    pub name: Seq<char>,
    pub items: Seq<Seq<char>>,
}

impl Item {
    #[verifier::type_invariant]
    spec fn startable(&self) -> bool {
        self.func.callable()
    }

    fn new<F: Fn() + 'static>(name: String, func: F) -> (item: Item)
        requires
            call_requires(func, ()),
        ensures
            item.name == name,
            item.func.completed() == call_ensures(func, (), ()),
    {
        Item { name, func: Box::new(func) }
    }
}

impl View for Menu {
    type V = MenuView;

    closed spec fn view(&self) -> MenuView {
        MenuView { name: self.name@, items: self.items@.map_values(|item: Item| item.name@) }
    }
}

/// The line of the item at place `k`: the number filled up to 10
/// characters, a bracket, a space, and the name filled up to 100.
pub open spec fn item_line(k: nat, name: Seq<char>) -> Seq<char> {
    padded(decimal(k), 10) + ") "@ + padded(name, 100)
}

/// The lines of a menu with these `items`, numbered from 0.
pub open spec fn item_lines(items: Seq<Seq<char>>) -> Seq<Seq<char>>
    decreases items.len(),
{
    if items.len() == 0 {
        Seq::empty()
    } else {
        item_lines(items.drop_last()).push(item_line((items.len() - 1) as nat, items.last()))
    }
}

/// The place that `input` picks in a menu of `count` items: the number it
/// denotes, where it denotes one that is the place of an item.
pub open spec fn picked(count: nat, input: Seq<char>) -> Option<usize> {
    match parsed_number(input) {
        Some(n) => if 0 <= n < count {
            Some(n as usize)
        } else {
            None
        },
        None => None,
    }
}

impl Menu {
    /// What holds once a call of the function of the item at `index` has
    /// returned.
    pub closed spec fn ran_at(&self, index: int) -> bool {
        self.items[index].func.completed()
    }

    /// A menu called `name` without items.
    pub fn new(name: String) -> (menu: Menu)
        ensures
            menu@ == (MenuView { name: name@, items: Seq::empty() }),
    {
        let menu = Menu { name, items: Vec::new() };
        assert(menu@.items =~= Seq::<Seq<char>>::empty());
        menu
    }

    /// Adds an item called `name` that runs `func` behind the items that
    /// are there.
    pub fn add_item<F: Fn() + 'static>(&mut self, name: String, func: F)
        requires
            call_requires(func, ()),
        ensures
            final(self)@ == (MenuView { items: old(self)@.items.push(name@), ..old(self)@ }),
            forall|i: int|
                0 <= i < old(self)@.items.len() ==> final(self).ran_at(i) == old(self).ran_at(i),
            final(self).ran_at(old(self)@.items.len() as int) == call_ensures(func, (), ()),
    {
        self.items.push(Item::new(name, func));
        assert(self@.items =~= old(self)@.items.push(name@));
    }

    /// The name of the menu.
    pub fn name(&self) -> (name: &str)
        ensures
            name@ == self@.name,
    {
        self.name.as_str()
    }

    /// The number of items.
    pub fn len(&self) -> (count: usize)
        ensures
            count == self@.items.len(),
    {
        self.items.len()
    }

    /// The lines of the menu, one for each item, numbered from 0.
    pub fn lines(&self) -> (lines: Vec<String>)
        ensures
            lines.deep_view() == item_lines(self@.items),
    {
        let mut lines: Vec<String> = Vec::new();
        let mut k: usize = 0;
        assert(self@.items.take(0) =~= Seq::<Seq<char>>::empty());
        assert(lines.deep_view() =~= Seq::<Seq<char>>::empty());
        while k < self.items.len()
            invariant
                k <= self.items.len(),
                lines.deep_view() == item_lines(self@.items.take(k as int)),
            decreases self.items.len() - k,
        {
            let ghost before = lines.deep_view();
            let number = decimal_text(k as u64);
            let mut line = pad_right(number.as_str(), 10);
            line.append(") ");
            let cell = pad_right(self.items[k].name.as_str(), 100);
            line.append(cell.as_str());
            lines.push(line);
            k += 1;
            proof {
                let now = self@.items.take(k as int);
                assert(now.drop_last() =~= self@.items.take(k - 1));
                assert(now.last() == self.items[k - 1].name@);
                assert(lines.deep_view() =~= before.push(line@));
            }
        }
        assert(self@.items.take(k as int) =~= self@.items);
        lines
    }

    /// The place of the item that the line `input` picks, if it picks one.
    pub fn pick(&self, input: &str) -> (place: Option<usize>)
        ensures
            place == picked(self@.items.len(), input@),
    {
        match parse_number(input) {
            Some(n) => {
                if n >= 0 && (n as usize) < self.items.len() {
                    Some(n as usize)
                } else {
                    None
                }
            },
            None => None,
        }
    }

    /// Runs the function of the item that the line `input` picks.
    pub fn run(&self, input: &str)
        requires
            picked(self@.items.len(), input@) is Some,
        ensures
            self.ran_at(picked(self@.items.len(), input@)->0 as int),
    {
        match self.pick(input) {
            Some(place) => {
                let item = &self.items[place];
                proof {
                    use_type_invariant(item);
                }
                item.func.invoke();
            },
            None => {},
        }
    }
}

} // verus!
