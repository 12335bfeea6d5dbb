//! The actions that a to-do list accepts, and the error of a refused one.

use vstd::prelude::*;

verus! {

/// One request to change a to-do list.
#[derive(Debug, PartialEq, Eq)]
pub enum Action {
    /// Replace the draft by the given text, which may be empty.
    SetDraftText(String),
    /// Commit the current draft as a new last item.
    AddTodo,
    /// Remove the item at the given position.
    RemoveTodo(usize),
}

/// An [`Action`] as a mathematical value.
pub enum ActionView {
    SetDraftText(Seq<char>),
    AddTodo,
    RemoveTodo(nat),
}

impl View for Action {
    type V = ActionView;

    open spec fn view(&self) -> ActionView {
        match *self {
            Action::SetDraftText(text) => ActionView::SetDraftText(text@),
            Action::AddTodo => ActionView::AddTodo,
            Action::RemoveTodo(index) => ActionView::RemoveTodo(index as nat),
        }
    }
}

impl Clone for Action {
    fn clone(&self) -> (copy: Action)
        ensures
            copy == *self,
    {
        match self {
            Action::SetDraftText(text) => Action::SetDraftText(text.clone()),
            Action::AddTodo => Action::AddTodo,
            Action::RemoveTodo(index) => Action::RemoveTodo(*index),
        }
    }
}

/// Why a list refused an action.
#[derive(Debug, Clone, Copy, PartialEq, Eq, Structural)]
pub enum ApplyError {
    /// A removal named a position at which the list, of length `len`, holds
    /// no item.
    IndexOutOfRange { index: usize, len: usize },
}

} // verus!
