//! The mathematical model of the application state: what a state is, when
//! it is valid, and what each transition makes of it.

use vstd::prelude::*;

use crate::item::{ItemView, RecordView};

verus! {

/// Mathematical content of an [`AppState`].
pub struct StateView {
    /// The items in display order, newest first.
    pub items: Seq<ItemView>,
    /// The text typed so far for the next item.
    pub draft: Seq<char>,
    /// The identifier of the item being edited, if there is one.
    pub selected: Option<u128>,
}

/// No identifier occurs twice among `items`.
pub open spec fn ids_distinct(items: Seq<ItemView>) -> bool {
    forall|i: int, j: int|
        0 <= i < items.len() && 0 <= j < items.len() && i != j ==> (#[trigger] items[i]).id != (
        #[trigger] items[j]).id
}

/// Some item of `items` carries `id`.
pub open spec fn holds_id(items: Seq<ItemView>, id: u128) -> bool {
    exists|i: int| 0 <= i < items.len() && (#[trigger] items[i]).id == id
}

/// No identifier occurs twice among `records`.
pub open spec fn record_ids_distinct(records: Seq<RecordView>) -> bool {
    forall|i: int, j: int|
        0 <= i < records.len() && 0 <= j < records.len() && i != j ==> (#[trigger] records[i]).id
            != (#[trigger] records[j]).id
}

/// `items` with `f` applied to the item that carries `id`.
pub open spec fn on_item(items: Seq<ItemView>, id: u128, f: spec_fn(ItemView) -> ItemView) -> Seq<
    ItemView,
> {
    Seq::new(
        items.len(),
        |i: int|
            if items[i].id == id {
                f(items[i])
            } else {
                items[i]
            },
    )
}

/// Whether an item is kept when the completed ones are cleared.
pub open spec fn is_open(item: ItemView) -> bool {
    !item.done
}

/// The items that are not completed, in their order.
pub open spec fn open_items(items: Seq<ItemView>) -> Seq<ItemView> {
    items.filter(|item: ItemView| is_open(item))
}

impl StateView {
    /// The state before anything was added or loaded.
    pub open spec fn empty() -> StateView {
        StateView { items: Seq::empty(), draft: Seq::empty(), selected: None }
    }

    /// Whether some item carries `id`.
    pub open spec fn has_id(self, id: u128) -> bool {
        holds_id(self.items, id)
    }

    /// Validity of a state: every item is valid, identifiers are unique, an
    /// item is selected exactly if the selection pointer names it, and the
    /// pointer names an item of the list.
    pub open spec fn inv(self) -> bool {
        &&& forall|i: int| 0 <= i < self.items.len() ==> (#[trigger] self.items[i]).inv()
        &&& ids_distinct(self.items)
        &&& forall|i: int|
            0 <= i < self.items.len() ==> ((#[trigger] self.items[i]).selected <==> self.selected
                == Some(self.items[i].id))
        &&& match self.selected {
            Some(id) => self.has_id(id),
            None => true,
        }
    }

    /// The state built from stored records. Records in which an identifier
    /// repeats are not a list of items: they give the empty state.
    pub open spec fn load(records: Seq<RecordView>) -> StateView {
        if record_ids_distinct(records) {
            StateView {
                items: records.map_values(|r: RecordView| ItemView::from_record(r)),
                draft: Seq::empty(),
                selected: None,
            }
        } else {
            StateView::empty()
        }
    }

    /// The durable fields of all items, in display order.
    pub open spec fn records(self) -> Seq<RecordView> {
        self.items.map_values(|item: ItemView| item.record())
    }

    /// Selecting the item `id`: it becomes the one active item and every
    /// other item is idle. Nothing happens if it is selected already or if no
    /// item carries `id`.
    pub open spec fn select(self, id: u128) -> StateView {
        if self.selected == Some(id) || !self.has_id(id) {
            self
        } else {
            StateView {
                items: Seq::new(
                    self.items.len(),
                    |i: int|
                        if self.items[i].id == id {
                            self.items[i].activate()
                        } else {
                            self.items[i].deactivate()
                        },
                ),
                selected: Some(id),
                ..self
            }
        }
    }

    /// Ending the edit session of `id` with the typed text kept. Nothing
    /// happens unless `id` is the item being edited.
    pub open spec fn unselect(self, id: u128) -> StateView {
        if self.selected == Some(id) {
            StateView {
                items: on_item(self.items, id, |item: ItemView| item.deactivate()),
                selected: None,
                ..self
            }
        } else {
            self
        }
    }

    /// Ending the edit session of `id` with the typed text discarded: the
    /// text is put back first, then the item becomes idle. Nothing happens
    /// unless `id` is the item being edited.
    pub open spec fn cancel(self, id: u128) -> StateView {
        if self.selected == Some(id) {
            StateView {
                items: on_item(self.items, id, |item: ItemView| item.revert().deactivate()),
                selected: None,
                ..self
            }
        } else {
            self
        }
    }

    /// Recomputing the display form of `id`.
    pub open spec fn rebuild(self, id: u128) -> StateView {
        StateView { items: on_item(self.items, id, |item: ItemView| item.rebuilt()), ..self }
    }

    /// Flipping the completion flag of `id`.
    pub open spec fn toggle_done(self, id: u128) -> StateView {
        StateView { items: on_item(self.items, id, |item: ItemView| item.toggled()), ..self }
    }

    /// Typing `text` into `id`, which takes effect only while `id` is edited.
    pub open spec fn set_text(self, id: u128, text: Seq<char>) -> StateView {
        StateView { items: on_item(self.items, id, |item: ItemView| item.edited(text)), ..self }
    }

    /// Replacing the draft.
    pub open spec fn set_draft(self, text: Seq<char>) -> StateView {
        StateView { draft: text, ..self }
    }

    /// Turning the draft into a new item with identifier `id` at the front
    /// of the list. Nothing happens if `id` is in use.
    pub open spec fn add(self, id: u128) -> StateView {
        if self.has_id(id) {
            self
        } else {
            StateView {
                items: seq![ItemView::fresh(id, self.draft)] + self.items,
                draft: Seq::empty(),
                ..self
            }
        }
    }

    /// Removing the completed items. The others keep their order, and the
    /// selection pointer is kept exactly if the item it names is.
    pub open spec fn clear_completed(self) -> StateView {
        let kept = StateView {
            items: open_items(self.items),
            ..self
        };
        match self.selected {
            Some(id) => if kept.has_id(id) {
                kept
            } else {
                StateView { selected: None, ..kept }
            },
            None => kept,
        }
    }
}

/// Loading gives a valid state.
pub proof fn lemma_load_inv(records: Seq<RecordView>)
    ensures
        StateView::load(records).inv(),
        StateView::empty().inv(),
{
}

/// Selecting keeps a state valid.
pub proof fn lemma_select_inv(s: StateView, id: u128)
    requires
        s.inv(),
    ensures
        s.select(id).inv(),
{
    let t = s.select(id);
    if !(s.selected == Some(id) || !s.has_id(id)) {
        let k = choose|k: int| 0 <= k < s.items.len() && (#[trigger] s.items[k]).id == id;
        assert(t.items[k].id == id);
        assert forall|i: int| 0 <= i < t.items.len() implies (#[trigger] t.items[i]).inv() by {
            assert(s.items[i].inv());
        }
        assert forall|i: int, j: int|
            0 <= i < t.items.len() && 0 <= j < t.items.len() && i != j implies (
        #[trigger] t.items[i]).id != (#[trigger] t.items[j]).id by {
            assert(s.items[i].id != s.items[j].id);
        }
    }
}

/// Ending an edit session, either way, keeps a state valid.
pub proof fn lemma_unselect_inv(s: StateView, id: u128)
    requires
        s.inv(),
    ensures
        s.unselect(id).inv(),
        s.cancel(id).inv(),
{
    let t = s.unselect(id);
    let u = s.cancel(id);
    if s.selected == Some(id) {
        assert forall|i: int| 0 <= i < t.items.len() implies (#[trigger] t.items[i]).inv() && (
        t.items[i].selected <==> t.selected == Some(t.items[i].id)) by {
            assert(s.items[i].inv());
        }
        assert forall|i: int, j: int|
            0 <= i < t.items.len() && 0 <= j < t.items.len() && i != j implies (
        #[trigger] t.items[i]).id != (#[trigger] t.items[j]).id by {
            assert(s.items[i].id != s.items[j].id);
        }
        assert forall|i: int| 0 <= i < u.items.len() implies (#[trigger] u.items[i]).inv() && (
        u.items[i].selected <==> u.selected == Some(u.items[i].id)) by {
            assert(s.items[i].inv());
        }
        assert forall|i: int, j: int|
            0 <= i < u.items.len() && 0 <= j < u.items.len() && i != j implies (
        #[trigger] u.items[i]).id != (#[trigger] u.items[j]).id by {
            assert(s.items[i].id != s.items[j].id);
        }
    }
}

/// A change to one item that keeps its identifier, its flags and its
/// validity keeps the state valid.
pub proof fn lemma_on_item_inv(s: StateView, id: u128, f: spec_fn(ItemView) -> ItemView)
    requires
        s.inv(),
        forall|item: ItemView|
            item.inv() ==> {
                &&& (#[trigger] f(item)).inv()
                &&& f(item).id == item.id
                &&& f(item).selected == item.selected
            },
    ensures
        (StateView { items: on_item(s.items, id, f), ..s }).inv(),
{
    let t = StateView { items: on_item(s.items, id, f), ..s };
    assert forall|i: int| 0 <= i < t.items.len() implies (#[trigger] t.items[i]).inv()
        && t.items[i].id == s.items[i].id && t.items[i].selected == s.items[i].selected by {
        assert(s.items[i].inv());
    }
    assert forall|i: int, j: int|
        0 <= i < t.items.len() && 0 <= j < t.items.len() && i != j implies (#[trigger] t.items[i]).id
        != (#[trigger] t.items[j]).id by {
        assert(s.items[i].id != s.items[j].id);
    }
    match s.selected {
        Some(sel) => {
            let k = choose|k: int| 0 <= k < s.items.len() && (#[trigger] s.items[k]).id == sel;
            assert(t.items[k].id == sel);
        },
        None => {},
    }
}

/// Rebuilding, toggling and typing keep a state valid.
pub proof fn lemma_item_edits_inv(s: StateView, id: u128, text: Seq<char>)
    requires
        s.inv(),
    ensures
        s.rebuild(id).inv(),
        s.toggle_done(id).inv(),
        s.set_text(id, text).inv(),
        s.set_draft(text).inv(),
{
    lemma_on_item_inv(s, id, |item: ItemView| item.rebuilt());
    lemma_on_item_inv(s, id, |item: ItemView| item.toggled());
    lemma_on_item_inv(s, id, |item: ItemView| item.edited(text));
}

/// Adding keeps a state valid.
pub proof fn lemma_add_inv(s: StateView, id: u128)
    requires
        s.inv(),
    ensures
        s.add(id).inv(),
{
    let t = s.add(id);
    if !s.has_id(id) {
        // Behind the new item stand the old ones, each one place further on.
        assert forall|i: int| 0 < i < t.items.len() implies #[trigger] t.items[i] == s.items[i - 1] by {}
        assert forall|i: int| 0 <= i < t.items.len() implies (#[trigger] t.items[i]).inv() && (
        t.items[i].selected <==> t.selected == Some(t.items[i].id)) by {
            if i > 0 {
                assert(s.items[i - 1].inv());
            }
        }
        assert forall|i: int, j: int|
            0 <= i < t.items.len() && 0 <= j < t.items.len() && i != j implies (
        #[trigger] t.items[i]).id != (#[trigger] t.items[j]).id by {
            if i > 0 && j > 0 {
                assert(s.items[i - 1].id != s.items[j - 1].id);
            }
        }
        match s.selected {
            Some(sel) => {
                let k = choose|k: int| 0 <= k < s.items.len() && (#[trigger] s.items[k]).id == sel;
                assert(t.items[k + 1].id == sel);
            },
            None => {},
        }
    }
}

/// What `open_items` keeps of a list: open items of the list, every open
/// item of the list, and no identifier twice if the list had none twice.
pub proof fn lemma_open_items(items: Seq<ItemView>)
    ensures
        forall|k: int|
            0 <= k < open_items(items).len() ==> {
                &&& is_open(#[trigger] open_items(items)[k])
                &&& items.contains(open_items(items)[k])
            },
        forall|i: int|
            0 <= i < items.len() && is_open(items[i]) ==> open_items(items).contains(
                #[trigger] items[i],
            ),
        ids_distinct(items) ==> ids_distinct(open_items(items)),
    decreases items.len(),
{
    reveal(Seq::filter);
    let kept = open_items(items);
    if items.len() > 0 {
        // `kept` is what is kept of `init`, and then the last item if it is open.
        let init = items.drop_last();
        let sub = open_items(init);
        let last = items.len() - 1;
        lemma_open_items(init);
        assert forall|k: int| 0 <= k < kept.len() implies is_open(#[trigger] kept[k])
            && items.contains(kept[k]) by {
            if k < sub.len() {
                let i = choose|i: int| 0 <= i < init.len() && init[i] == sub[k];
                assert(items[i] == kept[k]);
            } else {
                assert(items[last] == kept[k]);
            }
        }
        assert forall|i: int| 0 <= i < items.len() && is_open(items[i]) implies kept.contains(
            #[trigger] items[i],
        ) by {
            if i < last {
                assert(sub.contains(init[i]));
                let k = choose|k: int| 0 <= k < sub.len() && sub[k] == init[i];
                assert(kept[k] == items[i]);
            } else {
                assert(kept[kept.len() - 1] == items[i]);
            }
        }
        if ids_distinct(items) {
            assert(ids_distinct(init)) by {
                assert forall|a: int, b: int|
                    0 <= a < init.len() && 0 <= b < init.len() && a != b implies (
                #[trigger] init[a]).id != (#[trigger] init[b]).id by {
                    assert(items[a].id != items[b].id);
                }
            }
            // An item kept of `init` stands in `init`, so it is not the last item.
            assert forall|a: int| 0 <= a < sub.len() implies (#[trigger] sub[a]).id
                != items[last].id by {
                let i = choose|i: int| 0 <= i < init.len() && init[i] == sub[a];
                assert(items[i].id != items[last].id);
            }
            assert forall|a: int, b: int|
                0 <= a < kept.len() && 0 <= b < kept.len() && a != b implies (#[trigger] kept[a]).id
                != (#[trigger] kept[b]).id by {
                if a < sub.len() {
                    assert(kept[a] == sub[a]);
                }
                if b < sub.len() {
                    assert(kept[b] == sub[b]);
                }
            }
        }
    }
}

/// Clearing the completed items keeps a state valid.
pub proof fn lemma_clear_completed_inv(s: StateView)
    requires
        s.inv(),
    ensures
        s.clear_completed().inv(),
{
    let t = s.clear_completed();
    lemma_open_items(s.items);
    assert forall|k: int| 0 <= k < t.items.len() implies (#[trigger] t.items[k]).inv() && (
    t.items[k].selected <==> t.selected == Some(t.items[k].id)) by {
        // What was kept stood in the list before, valid and with its flags.
        let i = choose|i: int| 0 <= i < s.items.len() && s.items[i] == t.items[k];
        assert(s.items[i].inv());
    }
}

} // verus!
