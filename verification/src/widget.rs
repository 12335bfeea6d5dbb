//! The two sides on which a to-do list meets its widget: what the user's
//! gestures mean, and which rows the widget has to show.

use crate::action::{Action, ActionView};
use crate::state::TodoListState;
use vstd::prelude::*;

verus! {

/// Something that the user did to the widget.
#[derive(Debug, PartialEq, Eq)]
pub enum UiEvent {
    /// The input box reported a change and now holds this text.
    InputChanged(String),
    /// A key was released in the input box, which now holds this text.
    KeyReleased(String),
    /// The add button was activated.
    AddPressed,
    /// The row shown at this position was clicked.
    RowClicked(usize),
}

impl UiEvent {
    /// The action that the event asks for. The draft follows the input box
    /// on every change and on every key release, not only on a commit.
    pub open spec fn action(self) -> ActionView {
        match self {
            UiEvent::InputChanged(text) => ActionView::SetDraftText(text@),
            UiEvent::KeyReleased(text) => ActionView::SetDraftText(text@),
            UiEvent::AddPressed => ActionView::AddTodo,
            UiEvent::RowClicked(position) => ActionView::RemoveTodo(position as nat),
        }
    }

    /// Turns the event into the action that it asks for.
    pub fn into_action(self) -> (action: Action)
        ensures
            action@ == self.action(),
    {
        match self {
            UiEvent::InputChanged(text) => Action::SetDraftText(text),
            UiEvent::KeyReleased(text) => Action::SetDraftText(text),
            UiEvent::AddPressed => Action::AddTodo,
            UiEvent::RowClicked(position) => Action::RemoveTodo(position),
        }
    }
}

/// One clickable row of the widget.
#[derive(Debug, PartialEq, Eq)]
pub struct Row {
    /// The text that the row shows.
    pub label: String,
    /// The position to report in [`UiEvent::RowClicked`] when the row is
    /// clicked.
    pub position: usize,
}

impl TodoListState {
    /// The rows to show, top to bottom: one for each item, in the items'
    /// order, labelled with the item and reporting the item's own position.
    pub fn rows(&self) -> (rows: Vec<Row>)
        ensures
            rows.len() == self@.items.len(),
            forall|i: int|
                0 <= i < rows.len() ==> {
                    &&& (#[trigger] rows[i]).label@ == self@.items[i]
                    &&& rows[i].position == i
                },
    {
        let items = self.items();
        let mut rows: Vec<Row> = Vec::new();
        let mut position: usize = 0;
        while position < items.len()
            invariant
                position <= items.len(),
                items.deep_view() == self@.items,
                rows.len() == position,
                forall|i: int|
                    0 <= i < position ==> {
                        &&& (#[trigger] rows[i]).label@ == items[i]@
                        &&& rows[i].position == i
                    },
            decreases items.len() - position,
        {
            rows.push(Row { label: items[position].clone(), position });
            position += 1;
        }
        rows
    }
}

/// Clicking the row that [`TodoListState::rows`] shows for an item asks for
/// the removal of that very item: the event is accepted, and afterwards the
/// list lacks the item and is otherwise in its old order.
pub proof fn law_row_click_removes_its_item(list: crate::state::TodoListView, position: usize)
    requires
        position < list.items.len(),
    ensures
        list.accepts(UiEvent::RowClicked(position).action()),
        list.next(UiEvent::RowClicked(position).action()).items == list.items.remove(
            position as int,
        ),
{
}

} // verus!
