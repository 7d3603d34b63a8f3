//! The application root: it owns the entry box and the item list and is
//! the only writer of either. Events arrive as commands — a submit from
//! the entry box's activation key or the inline add control, or a remove
//! from a rendered row — and each rule runs as one uninterruptible step,
//! so a viewer sees either all of a rule's effects or none.

use vstd::prelude::*;
use crate::state::{InputField, ItemList, remove_value};
use crate::view::{render, spec_render, VisualTree};

verus! {

/// An intended state transition, dispatched back to the application root
/// by the host. A rendered control carries such a value instead of a
/// callable: the remove control of a row carries the item value the row
/// was rendered for.
#[derive(Debug, PartialEq, Eq)]
pub enum Command {
    /// Move the entry box's value into the list and clear the entry box.
    Submit,
    /// Remove every item equal to the payload.
    Remove(String),
}

/// The single-window todo-list editor: a title, the entry box's state and
/// the list of items.
pub struct TodoList {
    title: String,
    input: InputField,
    items: ItemList,
}

impl TodoList {
    /// The title the window was opened with.
    pub closed spec fn title_spec(&self) -> Seq<char> {
        self.title@
    }

    /// The text currently in the entry box.
    pub closed spec fn input_spec(&self) -> Seq<char> {
        self.input@
    }

    /// The items, in insertion order.
    pub closed spec fn items_spec(&self) -> Seq<Seq<char>> {
        self.items@
    }

    /// A fresh editor: an empty entry box and an empty list.
    pub fn new(title: String) -> (r: Self)
        ensures
            r.title_spec() == title@,
            r.input_spec() == Seq::<char>::empty(),
            r.items_spec() == Seq::<Seq<char>>::empty(),
    {
        TodoList { title, input: InputField::new(), items: ItemList::new() }
    }

    /// The entry box's current value, for display and for the host's
    /// two-way binding.
    pub fn input_value(&self) -> (r: &String)
        ensures
            r@ == self.input_spec(),
    {
        self.input.get()
    }

    /// Replace the entry box's value, as the keystroke proxy does.
    pub fn set_input(&mut self, value: String)
        ensures
            final(self).input_spec() == value@,
            final(self).items_spec() == old(self).items_spec(),
            final(self).title_spec() == old(self).title_spec(),
    {
        self.input.set(value);
    }

    /// The items, in insertion order, for reading only.
    pub fn items(&self) -> (r: &Vec<String>)
        ensures
            r.deep_view() == self.items_spec(),
    {
        self.items.snapshot()
    }

    /// The submit rule: append the entry box's current value to the list,
    /// then clear the entry box. The two effects form one atomic
    /// transition — after it the list ends with the previous input and
    /// the entry box is empty, never one without the other.
    pub fn submit(&mut self)
        ensures
            final(self).items_spec() == old(self).items_spec().push(old(self).input_spec()),
            final(self).input_spec() == Seq::<char>::empty(),
            final(self).title_spec() == old(self).title_spec(),
    {
        let v = self.input.get().clone();
        self.items.append(v);
        self.input.set(String::new());
    }

    /// The remove rule: delete every item equal to `item`, the value the
    /// activated row's remove control was rendered for.
    pub fn remove(&mut self, item: &String)
        ensures
            final(self).items_spec() == remove_value(old(self).items_spec(), item@),
            final(self).input_spec() == old(self).input_spec(),
            final(self).title_spec() == old(self).title_spec(),
    {
        self.items.remove(item);
    }

    /// Apply one dispatched command as one uninterruptible step.
    pub fn dispatch(&mut self, cmd: Command)
        ensures
            cmd is Submit ==> final(self).items_spec() == old(self).items_spec().push(
                old(self).input_spec(),
            ) && final(self).input_spec() == Seq::<char>::empty(),
            cmd matches Command::Remove(item) ==> final(self).items_spec() == remove_value(
                old(self).items_spec(),
                item@,
            ) && final(self).input_spec() == old(self).input_spec(),
            final(self).title_spec() == old(self).title_spec(),
    {
        match cmd {
            Command::Submit => self.submit(),
            Command::Remove(item) => self.remove(&item),
        }
    }

    /// Derive the visual tree for the current state. Reading only: the
    /// state is unchanged, and the tree is a function of it alone.
    pub fn render(&self) -> (t: VisualTree)
        ensures
            t@ == spec_render(self.title_spec(), self.input_spec(), self.items_spec()),
    {
        render(&self.title, self.input.get(), self.items.snapshot())
    }
}

} // verus!
