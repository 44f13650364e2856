//! The core of a single-window todo list editor: which item is being edited,
//! how an edit is kept or discarded, and what is handed to the durable store.
//!
//! [`AppState`] owns the items, [`Delegate`] applies commands to it one at a
//! time, and the input handlers ([`TodoItem::select`], [`TodoItemController`])
//! say which commands an input asks for. Drawing, windows and files are left
//! to the program around this library.

pub mod command;
pub mod controllers;
pub mod delegate;
pub mod double_click;
pub mod ident;
pub mod item;
pub mod laws;
pub mod model;
pub mod render;
pub mod state;

pub use crate::command::{Command, Handled, ItemEvent, Request};
pub use crate::controllers::TodoItemController;
pub use crate::delegate::{Delegate, Dispatch};
pub use crate::double_click::is_double_click;
pub use crate::item::{SerdeTodoItem, TodoItem};
pub use crate::render::RichText;
pub use crate::state::{has_distinct_ids, AppState, Stored};
