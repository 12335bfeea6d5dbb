//! The state of a to-do list widget and the rules by which it changes.
//!
//! A widget holds a draft, the text that its input box currently shows, and
//! an ordered list of committed items. Every change goes through
//! [`TodoListState::apply`], which takes one [`Action`] and reports whether
//! the widget has to be drawn again. [`UiEvent`] says which action each
//! gesture of the user asks for, and [`TodoListState::rows`] which rows the
//! widget shows.

pub mod action;
pub mod laws;
pub mod state;
pub mod widget;

pub use action::{Action, ActionView, ApplyError};
pub use state::{TodoListState, TodoListView};
pub use widget::{Row, UiEvent};
