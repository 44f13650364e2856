//! The per-item input handler: what a key press or a changed completion
//! flag asks the dispatcher to do.

use vstd::prelude::*;

use crate::command::{Command, ItemEvent, Request};
use crate::item::TodoItem;

verus! {

/// The input handler of one item.
pub struct TodoItemController;

impl TodoItemController {
    /// What `event` on the item `id` asks for: the commit key ends the edit
    /// session with the text kept, the cancel key ends it with the text
    /// discarded, and either press is consumed.
    pub open spec fn event_requests(event: ItemEvent, id: u128) -> Seq<Request> {
        match event {
            ItemEvent::EnterKey => seq![
                Request::Submit(Command::UnselectConfirm(id)),
                Request::SetHandled,
            ],
            ItemEvent::EscapeKey => seq![
                Request::Submit(Command::UnselectCancel(id)),
                Request::SetHandled,
            ],
            ItemEvent::Other => Seq::empty(),
        }
    }

    /// What a change from the completion flag `was` to `is` asks for on the
    /// item `id`: a rebuild of the display form and a save, if the flag
    /// changed, and nothing otherwise.
    pub open spec fn update_requests(was: bool, is: bool, id: u128) -> Seq<Request> {
        if was != is {
            seq![
                Request::Submit(Command::Rebuild(id)),
                Request::Submit(Command::Save),
                Request::Layout,
            ]
        } else {
            Seq::empty()
        }
    }

    /// Reacts to an input event on `data`.
    pub fn event(&self, event: &ItemEvent, data: &TodoItem) -> (requests: Vec<Request>)
        ensures
            requests@ == Self::event_requests(*event, data@.id),
    {
        let mut requests: Vec<Request> = Vec::new();
        match event {
            ItemEvent::EnterKey => {
                requests.push(Request::Submit(Command::UnselectConfirm(data.id())));
                requests.push(Request::SetHandled);
            },
            ItemEvent::EscapeKey => {
                requests.push(Request::Submit(Command::UnselectCancel(data.id())));
                requests.push(Request::SetHandled);
            },
            ItemEvent::Other => {},
        }
        requests
    }

    /// Reacts to `data` having replaced `old_data`.
    pub fn update(&self, old_data: &TodoItem, data: &TodoItem) -> (requests: Vec<Request>)
        ensures
            requests@ == Self::update_requests(old_data@.done, data@.done, data@.id),
    {
        let mut requests: Vec<Request> = Vec::new();
        if old_data.is_done() != data.is_done() {
            requests.push(Request::Submit(Command::Rebuild(data.id())));
            requests.push(Request::Submit(Command::Save));
            requests.push(Request::Layout);
        }
        requests
    }
}

} // verus!
