//! Core of a single-window todo-list editor: the mutable UI state (an input
//! field and an ordered list of items), the event rules that mutate it, and
//! the pure derivation of a visual tree from it. The windowing host around
//! this core only delivers events and displays the derived tree.

pub mod assets;
pub mod state;
pub mod todo;
pub mod view;
