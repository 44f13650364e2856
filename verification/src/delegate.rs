//! The dispatcher: the one place where a command becomes a change of state.
//!
//! A command is handled to completion, follow-on effects included, before
//! the next one is looked at. Where handling ends with a write to the store,
//! the records to write are taken from the state after the change.

use vstd::prelude::*;

use crate::command::{Command, Handled};
use crate::ident::fresh_id;
use crate::item::SerdeTodoItem;
use crate::model::{
    lemma_add_inv, lemma_clear_completed_inv, lemma_item_edits_inv, lemma_select_inv,
    lemma_unselect_inv, StateView,
};
use crate::state::{record_views, AppState};

verus! {

impl StateView {
    /// The state after `cmd` was handled; `fresh` is the identifier that a
    /// new item gets.
    pub open spec fn step(self, cmd: Command, fresh: u128) -> StateView {
        match cmd {
            Command::Select(id) => self.select(id),
            Command::UnselectConfirm(id) => self.unselect(id),
            Command::UnselectCancel(id) => self.cancel(id),
            Command::Rebuild(id) => self.rebuild(id),
            Command::Save => self,
            Command::ToggleDone(id) => self.toggle_done(id),
            Command::Add => self.add(fresh),
            Command::ClearCompleted => self.clear_completed(),
            Command::Unrecognized => self,
        }
    }
}

/// Handling a command keeps a state valid.
pub proof fn lemma_step_inv(s: StateView, cmd: Command, fresh: u128)
    requires
        s.inv(),
    ensures
        s.step(cmd, fresh).inv(),
{
    match cmd {
        Command::Select(id) => lemma_select_inv(s, id),
        Command::UnselectConfirm(id) => lemma_unselect_inv(s, id),
        Command::UnselectCancel(id) => lemma_unselect_inv(s, id),
        Command::Rebuild(id) => lemma_item_edits_inv(s, id, Seq::empty()),
        Command::Save => {},
        Command::ToggleDone(id) => lemma_item_edits_inv(s, id, Seq::empty()),
        Command::Add => lemma_add_inv(s, fresh),
        Command::ClearCompleted => lemma_clear_completed_inv(s),
        Command::Unrecognized => {},
    }
}

/// What the dispatcher reports back for one command.
#[derive(Clone, Debug, PartialEq, Eq)]
pub struct Dispatch {
    /// Whether the command was one of the dispatcher's.
    pub handled: Handled,
    /// The records to write to the store, if handling ended with a save.
    pub persist: Option<Vec<SerdeTodoItem>>,
}

impl Dispatch {
    /// Whether this is the report owed for `cmd` when `after` is the state
    /// that handling it left: unknown commands are not handled, and a
    /// command that persists hands out the records of `after`.
    pub open spec fn reports(self, cmd: Command, after: StateView) -> bool {
        &&& self.handled == if cmd.recognized() {
            Handled::Yes
        } else {
            Handled::No
        }
        &&& match self.persist {
            Some(records) => cmd.persists() && record_views(records@) == after.records(),
            None => !cmd.persists(),
        }
    }
}

/// The dispatcher.
pub struct Delegate;

impl Delegate {
    /// Handles `cmd` on `data`, giving a new item the identifier `fresh`.
    pub fn dispatch(&self, cmd: &Command, fresh: u128, data: &mut AppState) -> (out: Dispatch)
        ensures
            final(data)@ == old(data)@.step(*cmd, fresh),
            final(data).wf(),
            out.reports(*cmd, final(data)@),
    {
        proof {
            use_type_invariant(&*data);
        }
        match cmd {
            Command::Select(id) => {
                data.select(*id);
                Dispatch { handled: Handled::Yes, persist: None }
            },
            Command::UnselectConfirm(id) => {
                data.unselect(*id);
                Dispatch { handled: Handled::Yes, persist: Some(data.save_to_json()) }
            },
            Command::UnselectCancel(id) => {
                data.cancel(*id);
                Dispatch { handled: Handled::Yes, persist: None }
            },
            Command::Rebuild(id) => {
                data.rebuild(*id);
                Dispatch { handled: Handled::Yes, persist: None }
            },
            Command::Save => Dispatch { handled: Handled::Yes, persist: Some(data.save_to_json()) },
            Command::ToggleDone(id) => {
                data.toggle_done(*id);
                Dispatch { handled: Handled::Yes, persist: Some(data.save_to_json()) }
            },
            Command::Add => {
                data.add_with_id(fresh);
                Dispatch { handled: Handled::Yes, persist: Some(data.save_to_json()) }
            },
            Command::ClearCompleted => {
                data.clear_completed();
                Dispatch { handled: Handled::Yes, persist: Some(data.save_to_json()) }
            },
            Command::Unrecognized => Dispatch { handled: Handled::No, persist: None },
        }
    }

    /// Handles `cmd` on `data`. A new item gets a random identifier, so for
    /// `Add` the state is the one that [`Delegate::dispatch`] gives for some
    /// identifier; every other command has one outcome.
    pub fn command(&self, cmd: &Command, data: &mut AppState) -> (out: Dispatch)
        ensures
            exists|fresh: u128| #[trigger] old(data)@.step(*cmd, fresh) == final(data)@,
            !(*cmd is Add) ==> final(data)@ == old(data)@.step(*cmd, 0),
            final(data).wf(),
            out.reports(*cmd, final(data)@),
    {
        let fresh = match cmd {
            Command::Add => fresh_id(),
            _ => 0,
        };
        self.dispatch(cmd, fresh, data)
    }
}

} // verus!
