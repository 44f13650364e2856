//! The closed vocabulary that connects the input layer to the dispatcher.

use vstd::prelude::*;

verus! {

/// A user intent, addressed to the dispatcher.
#[derive(Clone, Copy, Debug, PartialEq, Eq)]
pub enum Command {
    /// Make the item with this id the one being edited.
    Select(u128),
    /// Leave the edit session of this item and keep what was typed.
    UnselectConfirm(u128),
    /// Leave the edit session of this item and discard what was typed.
    UnselectCancel(u128),
    /// Recompute the display form of this item.
    Rebuild(u128),
    /// Write the durable fields of all items to the store.
    Save,
    /// Flip the completion flag of this item.
    ToggleDone(u128),
    /// Turn the draft into a new item.
    Add,
    /// Remove every completed item.
    ClearCompleted,
    /// An intent this dispatcher does not know; it is left to other handlers.
    Unrecognized,
}

/// Whether the dispatcher took care of a command.
#[derive(Clone, Copy, Debug, PartialEq, Eq)]
pub enum Handled {
    Yes,
    No,
}

/// What an input handler asks its surroundings to do, in the order asked.
#[derive(Clone, Copy, Debug, PartialEq, Eq)]
pub enum Request {
    /// Queue a command for the dispatcher.
    Submit(Command),
    /// Give keyboard focus to the widget of the item.
    Focus,
    /// Lay the widget out again.
    Layout,
    /// Select the whole text of the edit surface.
    SelectAll,
    /// Stop the event from travelling further.
    SetHandled,
}

/// The key presses an item reacts to while it has focus.
#[derive(Clone, Copy, Debug, PartialEq, Eq)]
pub enum ItemEvent {
    /// The commit key was pressed.
    EnterKey,
    /// The cancel key was pressed.
    EscapeKey,
    /// Anything else.
    Other,
}

impl Command {
    /// Whether the dispatcher knows this command.
    pub open spec fn recognized(self) -> bool {
        !(self is Unrecognized)
    }

    /// Whether handling this command ends with a write to the store.
    pub open spec fn persists(self) -> bool {
        self is UnselectConfirm || self is Save || self is ToggleDone || self is Add
            || self is ClearCompleted
    }
}

} // verus!
