//! The application state: the ordered items, the draft of the next item and
//! the pointer to the item being edited, with the transitions between states.

use vstd::prelude::*;
use vstd::string::*;

use crate::ident::fresh_id;
use crate::item::{ItemView, RecordView, SerdeTodoItem, TodoItem};
use crate::model::{
    holds_id, ids_distinct, lemma_add_inv, lemma_clear_completed_inv, lemma_item_edits_inv, lemma_load_inv,
    lemma_select_inv, lemma_unselect_inv, open_items, record_ids_distinct, StateView,
};

verus! {

/// The views of a sequence of items.
pub open spec fn item_views(items: Seq<TodoItem>) -> Seq<ItemView> {
    items.map_values(|item: TodoItem| item@)
}

/// The views of a sequence of records.
pub open spec fn record_views(records: Seq<SerdeTodoItem>) -> Seq<RecordView> {
    records.map_values(|r: SerdeTodoItem| r@)
}

/// What an attempt to read the durable store came back with.
#[derive(Clone, Debug, PartialEq, Eq)]
pub enum Stored {
    /// There is no store yet.
    Absent,
    /// The store holds something that is not a list of records.
    Corrupt,
    /// The records of the store, in their order.
    Records(Vec<SerdeTodoItem>),
}

impl Stored {
    /// The state that this outcome of reading gives: the items of the
    /// records, and the empty state where nothing usable was read.
    pub open spec fn state(self) -> StateView {
        match self {
            Stored::Records(records) => StateView::load(record_views(records@)),
            _ => StateView::empty(),
        }
    }
}

/// The ordered items, the draft of the next one, and the selection pointer.
#[derive(Debug, PartialEq, Eq)]
pub struct AppState {
    todos: Vec<TodoItem>,
    new_todo: String,
    selected: Option<u128>,
}

impl View for AppState {
    type V = StateView;

    closed spec fn view(&self) -> StateView {
        StateView {
            items: item_views(self.todos@),
            draft: self.new_todo@,
            selected: self.selected,
        }
    }
}

impl Clone for AppState {
    fn clone(&self) -> (copy: AppState)
        ensures
            copy@ == self@,
    {
        proof {
            use_type_invariant(self);
        }
        let mut todos: Vec<TodoItem> = Vec::new();
        let n = self.todos.len();
        let mut i: usize = 0;
        while i < n
            invariant
                n == self.todos.len(),
                i <= n,
                todos.len() == i,
                forall|k: int| 0 <= k < i ==> (#[trigger] todos@[k])@ == self.todos@[k]@,
            decreases n - i,
        {
            todos.push(self.todos[i].clone());
            i += 1;
        }
        assert(item_views(todos@) =~= self@.items);
        AppState::assemble(todos, self.new_todo.clone(), self.selected)
    }
}

/// Whether no identifier occurs twice among `records`.
pub fn has_distinct_ids(records: &Vec<SerdeTodoItem>) -> (distinct: bool)
    ensures
        distinct == record_ids_distinct(record_views(records@)),
{
    let ghost views = record_views(records@);
    let n = records.len();
    let mut i: usize = 0;
    while i < n
        invariant
            n == records.len(),
            views == record_views(records@),
            i <= n,
            forall|a: int, b: int|
                0 <= a < i && 0 <= b < a ==> (#[trigger] views[a]).id != (#[trigger] views[b]).id,
        decreases n - i,
    {
        let mut j: usize = 0;
        while j < i
            invariant
                n == records.len(),
                views == record_views(records@),
                i < n,
                j <= i,
                forall|b: int| 0 <= b < j ==> views[i as int].id != (#[trigger] views[b]).id,
            decreases i - j,
        {
            if records[j].id == records[i].id {
                assert(views[j as int].id == views[i as int].id);
                return false;
            }
            j += 1;
        }
        i += 1;
    }
    // Every place was compared with each place before it.
    assert forall|a: int, b: int| 0 <= a < views.len() && 0 <= b < views.len() && a != b implies (
    #[trigger] views[a]).id != (#[trigger] views[b]).id by {}
    true
}

impl AppState {
    /// Validity of a state: see [`StateView::inv`]. Every `AppState` is
    /// valid at all times.
    #[verifier::type_invariant]
    pub open spec fn wf(&self) -> bool {
        self@.inv()
    }

    /// The state with no items, an empty draft and nothing selected.
    pub fn new() -> (state: AppState)
        ensures
            state@ == StateView::empty(),
            state.wf(),
    {
        assert(item_views(Seq::<TodoItem>::empty()) =~= StateView::empty().items);
        AppState { todos: Vec::new(), new_todo: String::new(), selected: None }
    }

    /// Puts a state together from its parts, which the caller has shown to
    /// make a valid state.
    fn assemble(todos: Vec<TodoItem>, new_todo: String, selected: Option<u128>) -> (state: AppState)
        requires
            (StateView { items: item_views(todos@), draft: new_todo@, selected }).inv(),
        ensures
            state@ == (StateView { items: item_views(todos@), draft: new_todo@, selected }),
            state.wf(),
    {
        AppState { todos, new_todo, selected }
    }

    /// Takes a state apart and leaves the empty state in its place.
    fn take_apart(&mut self) -> (parts: (Vec<TodoItem>, String, Option<u128>))
        ensures
            item_views(parts.0@) == old(self)@.items,
            parts.1@ == old(self)@.draft,
            parts.2 == old(self)@.selected,
            final(self)@ == StateView::empty(),
    {
        let mut taken = AppState::new();
        std::mem::swap(self, &mut taken);
        let AppState { todos, new_todo, selected } = taken;
        (todos, new_todo, selected)
    }

    /// Builds the initial state from what reading the store came back with.
    ///
    /// An absent store and an unusable one both give the empty state, and so
    /// do records in which an identifier repeats. Otherwise every record
    /// becomes an idle item, in the order of the records.
    pub fn load_from_json(stored: Stored) -> (state: AppState)
        ensures
            state@ == stored.state(),
            state.wf(),
    {
        match stored {
            Stored::Records(records) => {
                proof {
                    lemma_load_inv(record_views(records@));
                }
                if !has_distinct_ids(&records) {
                    return AppState::new();
                }
                let mut todos: Vec<TodoItem> = Vec::new();
                let n = records.len();
                let mut i: usize = 0;
                while i < n
                    invariant
                        n == records.len(),
                        i <= n,
                        todos.len() == i,
                        forall|k: int|
                            0 <= k < i ==> (#[trigger] todos@[k])@ == ItemView::from_record(
                                records@[k]@,
                            ),
                    decreases n - i,
                {
                    let record = SerdeTodoItem {
                        id: records[i].id,
                        done: records[i].done,
                        text: records[i].text.clone(),
                    };
                    todos.push(TodoItem::from(record));
                    i += 1;
                }
                let new_todo = String::new();
                assert(item_views(todos@) =~= StateView::load(record_views(records@)).items);
                AppState::assemble(todos, new_todo, None)
            },
            _ => AppState::new(),
        }
    }

    /// The durable fields of every item, in display order: what a save
    /// writes to the store.
    pub fn save_to_json(&self) -> (records: Vec<SerdeTodoItem>)
        ensures
            record_views(records@) == self@.records(),
    {
        let mut records: Vec<SerdeTodoItem> = Vec::new();
        let n = self.todos.len();
        let mut i: usize = 0;
        while i < n
            invariant
                n == self.todos.len(),
                i <= n,
                records.len() == i,
                forall|k: int| 0 <= k < i ==> (#[trigger] records@[k])@ == self.todos@[k]@.record(),
            decreases n - i,
        {
            records.push(self.todos[i].record());
            i += 1;
        }
        records
    }

    /// The items in display order.
    pub fn todos(&self) -> (items: &Vec<TodoItem>)
        ensures
            item_views(items@) == self@.items,
            self.wf(),
    {
        proof {
            use_type_invariant(self);
        }
        &self.todos
    }

    /// The draft of the next item.
    pub fn new_todo(&self) -> (draft: &str)
        ensures
            draft@ == self@.draft,
    {
        self.new_todo.as_str()
    }

    /// The identifier of the item being edited, if there is one.
    pub fn selected(&self) -> (id: Option<u128>)
        ensures
            id == self@.selected,
    {
        self.selected
    }

    /// The place of the item that carries `id`: there is at most one.
    pub fn position(&self, id: u128) -> (at: Option<usize>)
        ensures
            match at {
                Some(i) => {
                    &&& i < self@.items.len()
                    &&& self@.items[i as int].id == id
                    &&& forall|k: int|
                        0 <= k < self@.items.len() && (#[trigger] self@.items[k]).id == id ==> k
                            == i
                },
                None => !self@.has_id(id),
            },
    {
        proof {
            use_type_invariant(self);
        }
        let n = self.todos.len();
        let mut i: usize = 0;
        while i < n
            invariant
                n == self.todos.len(),
                i <= n,
                ids_distinct(self@.items),
                forall|k: int| 0 <= k < i ==> (#[trigger] self@.items[k]).id != id,
            decreases n - i,
        {
            if self.todos[i].id() == id {
                return Some(i);
            }
            i += 1;
        }
        None
    }

    /// Whether the selection pointer names `id`.
    pub fn is_selected(&self, id: u128) -> (yes: bool)
        ensures
            yes == (self@.selected == Some(id)),
    {
        match self.selected {
            Some(current) => current == id,
            None => false,
        }
    }

    /// Replaces the draft.
    pub fn set_draft(&mut self, text: &str)
        ensures
            final(self)@ == old(self)@.set_draft(text@),
            final(self).wf(),
    {
        proof {
            use_type_invariant(&*self);
            lemma_item_edits_inv(self@, 0, text@);
        }
        self.new_todo = text.to_owned();
    }

    /// Makes `id` the item being edited; see [`StateView::select`].
    pub fn select(&mut self, id: u128)
        ensures
            final(self)@ == old(self)@.select(id),
            final(self).wf(),
    {
        proof {
            use_type_invariant(&*self);
            lemma_select_inv(self@, id);
        }
        if self.is_selected(id) || self.position(id).is_none() {
            return ;
        }
        let (mut todos, new_todo, _) = self.take_apart();
        let ghost before = item_views(todos@);
        let n = todos.len();
        let mut i: usize = 0;
        while i < n
            invariant
                n == todos.len(),
                n == before.len(),
                i <= n,
                forall|k: int|
                    0 <= k < i ==> (#[trigger] todos@[k])@ == (if before[k].id == id {
                        before[k].activate()
                    } else {
                        before[k].deactivate()
                    }),
                forall|k: int| i <= k < n ==> (#[trigger] todos@[k])@ == before[k],
            decreases n - i,
        {
            if todos[i].id() == id {
                todos[i].gain_selection();
            } else {
                todos[i].lose_selection();
            }
            i += 1;
        }
        assert(item_views(todos@) =~= old(self)@.select(id).items);
        *self = AppState::assemble(todos, new_todo, Some(id));
    }

    /// Ends the edit session of `id` and keeps the typed text; see
    /// [`StateView::unselect`].
    pub fn unselect(&mut self, id: u128)
        ensures
            final(self)@ == old(self)@.unselect(id),
            final(self).wf(),
    {
        proof {
            use_type_invariant(&*self);
            lemma_unselect_inv(self@, id);
        }
        if !self.is_selected(id) {
            return ;
        }
        match self.position(id) {
            Some(i) => {
                let (mut todos, new_todo, _) = self.take_apart();
                todos[i].lose_selection();
                assert(item_views(todos@) =~= old(self)@.unselect(id).items);
                *self = AppState::assemble(todos, new_todo, None);
            },
            None => {},
        }
    }

    /// Ends the edit session of `id` and discards the typed text; see
    /// [`StateView::cancel`].
    pub fn cancel(&mut self, id: u128)
        ensures
            final(self)@ == old(self)@.cancel(id),
            final(self).wf(),
    {
        proof {
            use_type_invariant(&*self);
            lemma_unselect_inv(self@, id);
        }
        if !self.is_selected(id) {
            return ;
        }
        match self.position(id) {
            Some(i) => {
                let (mut todos, new_todo, _) = self.take_apart();
                todos[i].cancel_edit();
                todos[i].lose_selection();
                assert(item_views(todos@) =~= old(self)@.cancel(id).items);
                *self = AppState::assemble(todos, new_todo, None);
            },
            None => {},
        }
    }

    /// Recomputes the display form of `id`; see [`StateView::rebuild`].
    pub fn rebuild(&mut self, id: u128)
        ensures
            final(self)@ == old(self)@.rebuild(id),
            final(self).wf(),
    {
        proof {
            use_type_invariant(&*self);
            lemma_item_edits_inv(self@, id, Seq::empty());
        }
        match self.position(id) {
            Some(i) => {
                let (mut todos, new_todo, selected) = self.take_apart();
                todos[i].rebuild();
                assert(item_views(todos@) =~= old(self)@.rebuild(id).items);
                *self = AppState::assemble(todos, new_todo, selected);
            },
            None => {
                assert(self@.items =~= self@.rebuild(id).items);
            },
        }
    }

    /// Flips the completion flag of `id`; see [`StateView::toggle_done`].
    pub fn toggle_done(&mut self, id: u128)
        ensures
            final(self)@ == old(self)@.toggle_done(id),
            final(self).wf(),
    {
        proof {
            use_type_invariant(&*self);
            lemma_item_edits_inv(self@, id, Seq::empty());
        }
        match self.position(id) {
            Some(i) => {
                let (mut todos, new_todo, selected) = self.take_apart();
                todos[i].toggle_done();
                assert(item_views(todos@) =~= old(self)@.toggle_done(id).items);
                *self = AppState::assemble(todos, new_todo, selected);
            },
            None => {
                assert(self@.items =~= self@.toggle_done(id).items);
            },
        }
    }

    /// Types `text` into `id`; see [`StateView::set_text`].
    pub fn set_text(&mut self, id: u128, text: &str)
        ensures
            final(self)@ == old(self)@.set_text(id, text@),
            final(self).wf(),
    {
        proof {
            use_type_invariant(&*self);
            lemma_item_edits_inv(self@, id, text@);
        }
        match self.position(id) {
            Some(i) => {
                let (mut todos, new_todo, selected) = self.take_apart();
                todos[i].set_text(text);
                assert(item_views(todos@) =~= old(self)@.set_text(id, text@).items);
                *self = AppState::assemble(todos, new_todo, selected);
            },
            None => {
                assert(self@.items =~= self@.set_text(id, text@).items);
            },
        }
    }

    /// Turns the draft into a new item that carries `id`, at the front of the
    /// list, and empties the draft. Returns whether the item was added: it is
    /// not if `id` is in use, and then nothing changes.
    pub fn add_with_id(&mut self, id: u128) -> (added: bool)
        ensures
            final(self)@ == old(self)@.add(id),
            added == !old(self)@.has_id(id),
            final(self).wf(),
    {
        proof {
            use_type_invariant(&*self);
            lemma_add_inv(self@, id);
        }
        if self.position(id).is_some() {
            return false;
        }
        let (mut todos, new_todo, selected) = self.take_apart();
        let ghost before = item_views(todos@);
        todos.insert(0, TodoItem::with_id(id, new_todo.as_str()));
        assert(item_views(todos@) =~= seq![ItemView::fresh(id, new_todo@)] + before);
        *self = AppState::assemble(todos, String::new(), selected);
        true
    }

    /// Turns the draft into a new item with a random identifier.
    ///
    /// Whatever identifier was drawn, the state is the one that
    /// [`AppState::add_with_id`] gives for it. In a state without items the
    /// item is added for certain.
    pub fn add_todo(&mut self) -> (added: bool)
        ensures
            exists|id: u128| #[trigger]
                old(self)@.add(id) == final(self)@ && added == !old(self)@.has_id(id),
            old(self)@.items.len() == 0 ==> added,
            final(self).wf(),
    {
        let id = fresh_id();
        self.add_with_id(id)
    }

    /// Removes the completed items; see [`StateView::clear_completed`].
    pub fn clear_completed(&mut self)
        ensures
            final(self)@ == old(self)@.clear_completed(),
            final(self).wf(),
    {
        proof {
            use_type_invariant(&*self);
            lemma_clear_completed_inv(self@);
        }
        let (mut todos, new_todo, selected) = self.take_apart();
        let ghost before = item_views(todos@);
        let ghost mut seen: int = 0;
        let mut i: usize = 0;
        while i < todos.len()
            invariant
                0 <= seen <= before.len(),
                i <= todos.len(),
                todos.len() - i == before.len() - seen,
                // The first `i` items are what is kept of the first `seen`
                // items of the list, and behind them stands the rest of the
                // list, untouched.
                item_views(todos@).take(i as int) == open_items(before.take(seen)),
                item_views(todos@).skip(i as int) == before.skip(seen),
            decreases todos.len() - i,
        {
            let ghost current = item_views(todos@);
            proof {
                // The item at hand is the next one of the list, ...
                assert(current[i as int] == current.skip(i as int)[0]);
                // ... behind it stands what follows it in the list, ...
                assert forall|j: int| seen < j < before.len() implies #[trigger] before[j]
                    == current[j - seen + i] by {
                    assert(current.skip(i as int)[j - seen] == before.skip(seen)[j - seen]);
                }
                // ... and it is kept exactly if it is open.
                assert(before.take(seen + 1).drop_last() =~= before.take(seen));
                reveal(Seq::filter);
            }
            if todos[i].is_done() {
                todos.remove(i);
            } else {
                i += 1;
            }
            proof {
                seen = seen + 1;
            }
        }
        assert(item_views(todos@) =~= item_views(todos@).take(i as int));
        assert(before.take(seen) =~= before);
        let kept = match selected {
            Some(id) => if holds_id_among(&todos, id) {
                selected
            } else {
                None
            },
            None => None,
        };
        *self = AppState::assemble(todos, new_todo, kept);
    }
}

/// Whether one of `todos` carries `id`.
fn holds_id_among(todos: &Vec<TodoItem>, id: u128) -> (found: bool)
    ensures
        found == holds_id(item_views(todos@), id),
{
    let n = todos.len();
    let mut i: usize = 0;
    while i < n
        invariant
            n == todos.len(),
            i <= n,
            forall|k: int| 0 <= k < i ==> (#[trigger] item_views(todos@)[k]).id != id,
        decreases n - i,
    {
        if todos[i].id() == id {
            assert(item_views(todos@)[i as int].id == id);
            return true;
        }
        i += 1;
    }
    false
}

} // verus!
