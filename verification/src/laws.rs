//! What holds of every state the editor can be in, and of the transitions
//! taken together.

use vstd::prelude::*;

use crate::command::Command;
use crate::delegate::lemma_step_inv;
use crate::item::{ItemView, RecordView};
use crate::model::{
    is_open, lemma_item_edits_inv, lemma_load_inv, lemma_open_items, lemma_select_inv,
    open_items, StateView,
};

verus! {

/// One thing that can happen to a state.
pub enum Input {
    /// The dispatcher handles a command; the number is the identifier that a
    /// new item would get.
    Handle(Command, u128),
    /// The edit surface of an item replaces its text.
    Type(u128, Seq<char>),
    /// The draft is replaced.
    Draft(Seq<char>),
}

impl StateView {
    /// The state after `input`.
    pub open spec fn apply(self, input: Input) -> StateView {
        match input {
            Input::Handle(cmd, fresh) => self.step(cmd, fresh),
            Input::Type(id, text) => self.set_text(id, text),
            Input::Draft(text) => self.set_draft(text),
        }
    }

    /// The state after all of `inputs`, in their order.
    pub open spec fn run(self, inputs: Seq<Input>) -> StateView
        decreases inputs.len(),
    {
        if inputs.len() == 0 {
            self
        } else {
            self.run(inputs.drop_last()).apply(inputs.last())
        }
    }

    /// At most one item is selected.
    pub open spec fn at_most_one_selected(self) -> bool {
        forall|i: int, j: int|
            0 <= i < self.items.len() && 0 <= j < self.items.len() && (
            #[trigger] self.items[i]).selected && (#[trigger] self.items[j]).selected ==> i == j
    }

    /// Every item is edited exactly if it is selected.
    pub open spec fn editing_follows_selection(self) -> bool {
        forall|i: int|
            0 <= i < self.items.len() ==> (#[trigger] self.items[i]).editing
                == self.items[i].selected
    }

    /// The selection pointer is absent and no item is selected, or it names
    /// exactly one item of the list and that item is the selected one.
    pub open spec fn pointer_matches_selection(self) -> bool {
        match self.selected {
            Some(id) => exists|i: int|
                0 <= i < self.items.len() && (#[trigger] self.items[i]).id == id
                    && self.items[i].selected && forall|j: int|
                    0 <= j < self.items.len() && j != i ==> (#[trigger] self.items[j]).id != id
                        && !self.items[j].selected,
            None => forall|i: int|
                0 <= i < self.items.len() ==> !(#[trigger] self.items[i]).selected,
        }
    }
}

/// Every state that is reached from loaded records by commands and typing
/// is valid.
pub proof fn law_reachable_states_are_valid(records: Seq<RecordView>, inputs: Seq<Input>)
    ensures
        StateView::load(records).run(inputs).inv(),
    decreases inputs.len(),
{
    lemma_load_inv(records);
    if inputs.len() > 0 {
        law_reachable_states_are_valid(records, inputs.drop_last());
        let before = StateView::load(records).run(inputs.drop_last());
        match inputs.last() {
            Input::Handle(cmd, fresh) => lemma_step_inv(before, cmd, fresh),
            Input::Type(id, text) => lemma_item_edits_inv(before, id, text),
            Input::Draft(text) => lemma_item_edits_inv(before, 0, text),
        }
    }
}

/// In a valid state at most one item is selected, every item is edited
/// exactly if it is selected, and the selection pointer names the selected
/// item.
pub proof fn law_valid_state_has_one_selection(s: StateView)
    requires
        s.inv(),
    ensures
        s.at_most_one_selected(),
        s.editing_follows_selection(),
        s.pointer_matches_selection(),
{
    assert forall|i: int| 0 <= i < s.items.len() implies (#[trigger] s.items[i]).editing
        == s.items[i].selected by {
        assert(s.items[i].inv());
    }
    match s.selected {
        Some(id) => {
            // The item that the pointer names is selected, and it is the only
            // one with that identifier.
            let i = choose|i: int| 0 <= i < s.items.len() && (#[trigger] s.items[i]).id == id;
            assert(s.items[i].selected);
        },
        None => {},
    }
}

/// In every reachable state at most one item is selected.
pub proof fn law_single_selection(records: Seq<RecordView>, inputs: Seq<Input>)
    ensures
        StateView::load(records).run(inputs).at_most_one_selected(),
        StateView::load(records).run(inputs).pointer_matches_selection(),
{
    law_reachable_states_are_valid(records, inputs);
    law_valid_state_has_one_selection(StateView::load(records).run(inputs));
}

/// In every reachable state every item is edited exactly if it is selected.
pub proof fn law_editing_follows_selection(records: Seq<RecordView>, inputs: Seq<Input>)
    ensures
        StateView::load(records).run(inputs).editing_follows_selection(),
{
    law_reachable_states_are_valid(records, inputs);
    law_valid_state_has_one_selection(StateView::load(records).run(inputs));
}

/// Loading what was saved gives back the same records in the same order,
/// as idle items.
pub proof fn law_round_trip(s: StateView)
    requires
        s.inv(),
    ensures
        StateView::load(s.records()).records() == s.records(),
        StateView::load(s.records()).items.len() == s.items.len(),
        forall|i: int|
            0 <= i < s.items.len() ==> #[trigger] StateView::load(s.records()).items[i]
                == ItemView::from_record(s.items[i].record()),
{
    // The records carry the identifiers of the items, which are distinct.
    let records = s.records();
    assert forall|i: int, j: int|
        0 <= i < records.len() && 0 <= j < records.len() && i != j implies (
    #[trigger] records[i]).id != (#[trigger] records[j]).id by {
        assert(s.items[i].id != s.items[j].id);
    }
}

/// Select an item, type anything, cancel: the item has the text it had
/// before it was selected.
///
/// This is stated for an item that is idle, or whose edit session has not
/// changed its text yet: cancelling a session that was already running puts
/// back the text from when that session began.
pub proof fn law_cancel_restores_text(s: StateView, i: int, typed: Seq<char>)
    requires
        s.inv(),
        0 <= i < s.items.len(),
        s.items[i].selected ==> s.items[i].stash == s.items[i].text,
    ensures
        ({
            let id = s.items[i].id;
            let t = s.select(id).set_text(id, typed).cancel(id);
            &&& t.items.len() == s.items.len()
            &&& t.items[i].id == id
            &&& t.items[i].text == s.items[i].text
            &&& !t.items[i].selected
            &&& t.selected is None
        }),
{
    // After the selection the item is the one being edited, and its stash
    // holds the text it had.
    lemma_select_inv(s, s.items[i].id);
}

/// Select an item, type a text, confirm: the item has the typed text, and
/// the command that confirms ends with a write whose records hold it.
pub proof fn law_confirm_keeps_text(s: StateView, i: int, typed: Seq<char>, fresh: u128)
    requires
        s.inv(),
        0 <= i < s.items.len(),
    ensures
        ({
            let id = s.items[i].id;
            let confirm = Command::UnselectConfirm(id);
            let t = s.select(id).set_text(id, typed).step(confirm, fresh);
            &&& t == s.select(id).set_text(id, typed).unselect(id)
            &&& t.items.len() == s.items.len()
            &&& t.items[i].id == id
            &&& t.items[i].text == typed
            &&& !t.items[i].selected
            &&& confirm.persists()
            &&& t.records()[i] == (RecordView { id, text: typed, done: s.items[i].done })
        }),
{
    // After the selection the item is the one being edited.
    lemma_select_inv(s, s.items[i].id);
}

/// Select one item and then another: the first is idle, the second is
/// selected, and the selection pointer names the second.
pub proof fn law_selection_is_exclusive(s: StateView, i: int, j: int)
    requires
        s.inv(),
        0 <= i < s.items.len(),
        0 <= j < s.items.len(),
        i != j,
    ensures
        ({
            let t = s.select(s.items[i].id).select(s.items[j].id);
            &&& t.items.len() == s.items.len()
            &&& !t.items[i].selected
            &&& t.items[j].selected
            &&& t.selected == Some(s.items[j].id)
        }),
{
    // The first selection leaves a valid state in which the second item
    // still stands, idle.
    let a = s.select(s.items[i].id);
    lemma_select_inv(s, s.items[i].id);
    assert(a.items[j].id == s.items[j].id);
}

/// Adding to a state in which the identifier is free puts one open, idle
/// item with the text of the draft in front of the others, and its record
/// is the first of those a save would write.
pub proof fn law_add_puts_item_first(s: StateView, id: u128)
    requires
        s.inv(),
        !s.has_id(id),
    ensures
        s.add(id).items.len() == s.items.len() + 1,
        s.add(id).items[0] == ItemView::fresh(id, s.draft),
        s.add(id).records()[0] == (RecordView { id, text: s.draft, done: false }),
        forall|k: int| 0 <= k < s.items.len() ==> #[trigger] s.add(id).items[k + 1] == s.items[k],
        s.add(id).draft.len() == 0,
{
}

/// Whether `x` stands before `y` somewhere in `items`.
pub open spec fn stands_before(items: Seq<ItemView>, x: ItemView, y: ItemView) -> bool {
    exists|i: int, j: int|
        #![trigger items[i], items[j]]
        0 <= i < j < items.len() && items[i] == x && items[j] == y
}

/// Of two open items, the one that `open_items` lists first stood first.
proof fn lemma_open_items_keep_order(items: Seq<ItemView>)
    ensures
        forall|a: int, b: int|
            #![trigger open_items(items)[a], open_items(items)[b]]
            0 <= a < b < open_items(items).len() ==> stands_before(
                items,
                open_items(items)[a],
                open_items(items)[b],
            ),
    decreases items.len(),
{
    reveal(Seq::filter);
    let kept = open_items(items);
    if items.len() > 0 {
        let init = items.drop_last();
        let sub = open_items(init);
        lemma_open_items_keep_order(init);
        lemma_open_items(init);
        assert forall|a: int, b: int|
            #![trigger kept[a], kept[b]]
            0 <= a < b < kept.len() implies stands_before(items, kept[a], kept[b]) by {
            if b < sub.len() {
                // Both were kept of `init`, where they stood in this order.
                assert(stands_before(init, sub[a], sub[b]));
                let (i, j) = choose|i: int, j: int|
                    #![trigger init[i], init[j]]
                    0 <= i < j < init.len() && init[i] == sub[a] && init[j] == sub[b];
                assert(items[i] == kept[a] && items[j] == kept[b]);
            } else {
                // The second is the last item, and the first stood in `init`.
                let i = choose|i: int| 0 <= i < init.len() && init[i] == sub[a];
                assert(items[i] == kept[a] && items[items.len() - 1] == kept[b]);
            }
        }
    }
}

/// Clearing the completed items keeps exactly the open ones, and any two of
/// them in the order they had.
pub proof fn law_clear_completed_keeps_order(s: StateView)
    ensures
        forall|k: int|
            0 <= k < s.clear_completed().items.len() ==> is_open(
                #[trigger] s.clear_completed().items[k],
            ),
        forall|i: int|
            0 <= i < s.items.len() && is_open(s.items[i]) ==> s.clear_completed().items.contains(
                #[trigger] s.items[i],
            ),
        forall|a: int, b: int|
            #![trigger s.clear_completed().items[a], s.clear_completed().items[b]]
            0 <= a < b < s.clear_completed().items.len() ==> stands_before(
                s.items,
                s.clear_completed().items[a],
                s.clear_completed().items[b],
            ),
{
    lemma_open_items(s.items);
    lemma_open_items_keep_order(s.items);
}

/// Ending an edit session that is not running changes nothing, and neither
/// does selecting the item that is selected already or one that is not in
/// the list.
pub proof fn law_stale_commands_change_nothing(s: StateView, id: u128)
    ensures
        s.selected != Some(id) ==> s.unselect(id) == s && s.cancel(id) == s,
        s.selected == Some(id) || !s.has_id(id) ==> s.select(id) == s,
{
}

} // verus!
