//! What the transition rule guarantees, stated over the model and proved.
//!
//! [`TodoListState::apply`](crate::state::TodoListState::apply) follows
//! [`TodoListView::next`], so each statement here holds of every call of it.

use crate::action::ActionView;
use crate::state::TodoListView;
use vstd::prelude::*;

verus! {

/// No committed item is the empty text.
pub open spec fn no_blank_items(list: TodoListView) -> bool {
    forall|i: int| 0 <= i < list.items.len() ==> (#[trigger] list.items[i]).len() > 0
}

/// Setting the draft is accepted for every text, the empty one included. The
/// draft is then exactly that text, the items are untouched, and a redraw is
/// asked for.
pub proof fn law_set_draft_text(list: TodoListView, text: Seq<char>)
    ensures
        list.accepts(ActionView::SetDraftText(text)),
        list.redraws(ActionView::SetDraftText(text)),
        list.next(ActionView::SetDraftText(text)).draft_text == text,
        list.next(ActionView::SetDraftText(text)).items == list.items,
{
}

/// Committing an empty draft is accepted, changes nothing and asks for no
/// redraw.
pub proof fn law_add_todo_with_empty_draft(list: TodoListView)
    requires
        list.draft_text.len() == 0,
    ensures
        list.accepts(ActionView::AddTodo),
        !list.redraws(ActionView::AddTodo),
        list.next(ActionView::AddTodo) == list,
{
}

/// Committing a draft that is not empty appends it as the last item and
/// leaves the earlier items and the draft itself as they were; a redraw is
/// asked for.
pub proof fn law_add_todo_appends_draft(list: TodoListView)
    requires
        list.draft_text.len() > 0,
    ensures
        list.accepts(ActionView::AddTodo),
        list.redraws(ActionView::AddTodo),
        list.next(ActionView::AddTodo).items == list.items + seq![list.draft_text],
        list.next(ActionView::AddTodo).items.len() == list.items.len() + 1,
        list.next(ActionView::AddTodo).items.last() == list.draft_text,
        list.next(ActionView::AddTodo).draft_text == list.draft_text,
{
    assert(list.items.push(list.draft_text) =~= list.items + seq![list.draft_text]);
}

/// Removing at a position that holds an item is accepted and asks for a
/// redraw. The list is then shorter by exactly one: the items before the
/// position stay where they were, each later item moves up by one place, and
/// the draft is untouched.
pub proof fn law_remove_todo_shifts_later_items(list: TodoListView, index: nat)
    requires
        index < list.items.len(),
    ensures
        list.accepts(ActionView::RemoveTodo(index)),
        list.redraws(ActionView::RemoveTodo(index)),
        list.next(ActionView::RemoveTodo(index)).items.len() == list.items.len() - 1,
        forall|i: int|
            0 <= i < index ==> list.next(ActionView::RemoveTodo(index)).items[i] == list.items[i],
        forall|i: int|
            index <= i < list.items.len() - 1 ==> list.next(
                ActionView::RemoveTodo(index),
            ).items[i] == list.items[i + 1],
        list.next(ActionView::RemoveTodo(index)).draft_text == list.draft_text,
{
}

/// Removing at a position that holds no item is refused, and the list stays
/// exactly as it was.
pub proof fn law_remove_todo_out_of_range(list: TodoListView, index: nat)
    requires
        index >= list.items.len(),
    ensures
        !list.accepts(ActionView::RemoveTodo(index)),
        !list.redraws(ActionView::RemoveTodo(index)),
        list.next(ActionView::RemoveTodo(index)) == list,
{
}

/// Whenever an action changes the list, a redraw is asked for: without one
/// the list is exactly as before. The converse does not hold, since setting
/// the draft to the text that it already has asks for a redraw all the same.
pub proof fn law_change_is_always_signalled(list: TodoListView, action: ActionView)
    requires
        !list.redraws(action),
    ensures
        list.next(action) == list,
{
}

/// A list without blank items has none after any action: a commit is the only
/// way in, and it lets no empty draft through.
pub proof fn law_no_blank_items_preserved(list: TodoListView, action: ActionView)
    requires
        no_blank_items(list),
    ensures
        no_blank_items(list.next(action)),
{
}

/// Only setting the draft changes the draft.
pub proof fn law_draft_changes_only_when_set(list: TodoListView, action: ActionView)
    requires
        !(action is SetDraftText),
    ensures
        list.next(action).draft_text == list.draft_text,
{
}

} // verus!
