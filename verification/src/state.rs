//! The to-do list itself: its model and its transition rule.

use crate::action::{Action, ActionView, ApplyError};
use vstd::prelude::*;

verus! {

/// A to-do list as a mathematical value.
pub struct TodoListView {
    /// The text in the input box.
    pub draft_text: Seq<char>,
    /// The committed items, oldest first.
    pub items: Seq<Seq<char>>,
}

impl TodoListView {
    /// Whether the list takes the action: everything but a removal at a
    /// position that holds no item.
    pub open spec fn accepts(self, action: ActionView) -> bool {
        action matches ActionView::RemoveTodo(index) ==> index < self.items.len()
    }

    /// The list after the action. A refused action and a commit of an empty
    /// draft leave it as it is.
    pub open spec fn next(self, action: ActionView) -> TodoListView {
        match action {
            ActionView::SetDraftText(text) => TodoListView { draft_text: text, ..self },
            ActionView::AddTodo => if self.draft_text.len() == 0 {
                self
            } else {
                TodoListView { items: self.items.push(self.draft_text), ..self }
            },
            ActionView::RemoveTodo(index) => if index < self.items.len() {
                TodoListView { items: self.items.remove(index as int), ..self }
            } else {
                self
            },
        }
    }

    /// Whether the action asks for the widget to be drawn again. Setting the
    /// draft always does, a commit unless the draft is empty, a removal
    /// unless it is refused.
    pub open spec fn redraws(self, action: ActionView) -> bool {
        match action {
            ActionView::SetDraftText(_) => true,
            ActionView::AddTodo => self.draft_text.len() > 0,
            ActionView::RemoveTodo(index) => index < self.items.len(),
        }
    }
}

/// The draft and the committed items of one to-do list widget.
#[derive(Debug)]
pub struct TodoListState {
    draft_text: String,
    items: Vec<String>,
}

impl View for TodoListState {
    type V = TodoListView;

    closed spec fn view(&self) -> TodoListView {
        TodoListView { draft_text: self.draft_text@, items: self.items.deep_view() }
    }
}

impl Clone for TodoListState {
    fn clone(&self) -> (copy: TodoListState)
        ensures
            copy@ == self@,
    {
        let copy = TodoListState { draft_text: self.draft_text.clone(), items: self.items.clone() };
        assert(copy.items.deep_view() =~= self.items.deep_view());
        copy
    }
}

impl TodoListState {
    /// A list with an empty draft and no items.
    pub fn new() -> (state: TodoListState)
        ensures
            state@.draft_text == Seq::<char>::empty(),
            state@.items == Seq::<Seq<char>>::empty(),
    {
        TodoListState { draft_text: String::new(), items: Vec::new() }
    }

    /// The text that the input box shows.
    pub fn draft_text(&self) -> (text: &str)
        ensures
            text@ == self@.draft_text,
    {
        self.draft_text.as_str()
    }

    /// The committed items, oldest first.
    pub fn items(&self) -> (items: &Vec<String>)
        ensures
            items.deep_view() == self@.items,
    {
        &self.items
    }

    /// Carries out one action and says whether the widget must be drawn
    /// again.
    ///
    /// Setting the draft always succeeds and always asks for a redraw, even
    /// when the text is the one already held. Committing appends a copy of
    /// the draft and keeps the draft; with an empty draft it does nothing and
    /// returns `Ok(false)`. Removing deletes the item at the position and
    /// moves the later ones up by one; at a position that holds no item it
    /// fails and the list stays as it was.
    pub fn apply(&mut self, action: Action) -> (result: Result<bool, ApplyError>)
        ensures
            final(self)@ == old(self)@.next(action@),
            result is Ok <==> old(self)@.accepts(action@),
            result matches Ok(redraw) ==> redraw == old(self)@.redraws(action@),
            result matches Err(ApplyError::IndexOutOfRange { index, len }) ==> {
                &&& !old(self)@.redraws(action@)
                &&& action == Action::RemoveTodo(index)
                &&& len == old(self)@.items.len()
            },
    {
        match action {
            Action::SetDraftText(text) => {
                self.draft_text = text;
                Ok(true)
            },
            Action::AddTodo => {
                if self.draft_text.as_str().is_empty() {
                    Ok(false)
                } else {
                    let item = self.draft_text.clone();
                    self.items.push(item);
                    assert(self.items.deep_view() =~= old(self).items.deep_view().push(item@));
                    Ok(true)
                }
            },
            Action::RemoveTodo(index) => {
                let len: usize = self.items.len();
                if index < len {
                    self.items.remove(index);
                    assert(self.items.deep_view() =~= old(self).items.deep_view().remove(
                        index as int,
                    ));
                    Ok(true)
                } else {
                    Err(ApplyError::IndexOutOfRange { index, len })
                }
            },
        }
    }
}

} // verus!
