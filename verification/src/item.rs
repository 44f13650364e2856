//! One todo entity: durable content, transient editing flags and the cached
//! display form.

use vstd::prelude::*;
use vstd::string::*;

use crate::command::{Command, Request};
use crate::ident::{fresh_id, is_random_layout};
use crate::render::{display_of, RichText, RichTextView};

verus! {

/// Mathematical content of a [`SerdeTodoItem`]: the durable fields of an item.
pub struct RecordView {
    pub id: u128,
    pub text: Seq<char>,
    pub done: bool,
}

/// Mathematical content of a [`TodoItem`].
pub struct ItemView {
    pub id: u128,
    pub text: Seq<char>,
    pub stash: Seq<char>,
    pub done: bool,
    pub selected: bool,
    pub editing: bool,
    pub rendered: RichTextView,
}

impl ItemView {
    /// An item is either idle or active, never selected without being edited
    /// or the reverse, and an idle item shows its current text.
    pub open spec fn inv(self) -> bool {
        &&& self.editing == self.selected
        &&& !self.selected ==> self.rendered == display_of(self.text, self.done)
    }

    /// A new, idle, open item.
    pub open spec fn fresh(id: u128, text: Seq<char>) -> ItemView {
        ItemView {
            id,
            text,
            stash: text,
            done: false,
            selected: false,
            editing: false,
            rendered: display_of(text, false),
        }
    }

    /// The idle item that a stored record stands for.
    pub open spec fn from_record(r: RecordView) -> ItemView {
        ItemView {
            id: r.id,
            text: r.text,
            stash: r.text,
            done: r.done,
            selected: false,
            editing: false,
            rendered: display_of(r.text, r.done),
        }
    }

    /// An item with the given content, idle or active.
    pub open spec fn assembled(
        id: u128,
        text: Seq<char>,
        stash: Seq<char>,
        done: bool,
        active: bool,
    ) -> ItemView {
        ItemView {
            id,
            text,
            stash,
            done,
            selected: active,
            editing: active,
            rendered: display_of(text, done),
        }
    }

    /// The durable fields.
    pub open spec fn record(self) -> RecordView {
        RecordView { id: self.id, text: self.text, done: self.done }
    }

    /// Entering an edit session: the text is put aside and the item is active.
    pub open spec fn activate(self) -> ItemView {
        ItemView { stash: self.text, selected: true, editing: true, ..self }
    }

    /// Leaving an edit session: the item is idle and shows its current text.
    pub open spec fn deactivate(self) -> ItemView {
        ItemView {
            selected: false,
            editing: false,
            rendered: display_of(self.text, self.done),
            ..self
        }
    }

    /// Discarding what was typed in the running edit session, if there is one.
    pub open spec fn revert(self) -> ItemView {
        if self.editing {
            ItemView { text: self.stash, ..self }
        } else {
            self
        }
    }

    /// Typing in the running edit session, if there is one.
    pub open spec fn edited(self, text: Seq<char>) -> ItemView {
        if self.editing {
            ItemView { text, ..self }
        } else {
            self
        }
    }

    /// Recomputing the display form.
    pub open spec fn rebuilt(self) -> ItemView {
        ItemView { rendered: display_of(self.text, self.done), ..self }
    }

    /// Flipping the completion flag; the display form follows.
    pub open spec fn toggled(self) -> ItemView {
        ItemView { done: !self.done, rendered: display_of(self.text, !self.done), ..self }
    }
}

/// The durable fields of one item, as they are stored.
#[derive(Clone, Debug, PartialEq, Eq)]
pub struct SerdeTodoItem {
    pub id: u128,
    pub done: bool,
    pub text: String,
}

impl View for SerdeTodoItem {
    type V = RecordView;

    open spec fn view(&self) -> RecordView {
        RecordView { id: self.id, text: self.text@, done: self.done }
    }
}

/// One entry of the list.
#[derive(Debug, PartialEq, Eq)]
pub struct TodoItem {
    id: u128,
    done: bool,
    editing: bool,
    selected: bool,
    text: String,
    stash: String,
    rendered: RichText,
}

impl View for TodoItem {
    type V = ItemView;

    closed spec fn view(&self) -> ItemView {
        ItemView {
            id: self.id,
            text: self.text@,
            stash: self.stash@,
            done: self.done,
            selected: self.selected,
            editing: self.editing,
            rendered: self.rendered@,
        }
    }
}

impl Clone for TodoItem {
    fn clone(&self) -> (copy: TodoItem)
        ensures
            copy@ == self@,
    {
        proof {
            use_type_invariant(self);
        }
        TodoItem {
            id: self.id,
            done: self.done,
            editing: self.editing,
            selected: self.selected,
            text: self.text.clone(),
            stash: self.stash.clone(),
            rendered: self.rendered.clone(),
        }
    }
}

impl From<SerdeTodoItem> for TodoItem {
    /// The idle item that a stored record stands for.
    fn from(record: SerdeTodoItem) -> (item: TodoItem)
        ensures
            item@ == ItemView::from_record(record@),
            item.wf(),
    {
        let rendered = RichText::render(record.text.as_str(), record.done);
        let stash = record.text.clone();
        TodoItem {
            id: record.id,
            done: record.done,
            editing: false,
            selected: false,
            text: record.text,
            stash,
            rendered,
        }
    }
}

/// The conversion is described by the contract of `from` itself.
impl vstd::std_specs::convert::FromSpecImpl<SerdeTodoItem> for TodoItem {
    open spec fn obeys_from_spec() -> bool {
        false
    }

    open spec fn from_spec(record: SerdeTodoItem) -> TodoItem {
        arbitrary()
    }
}

impl TodoItem {
    /// Validity of an item: see [`ItemView::inv`]. Every `TodoItem` is valid
    /// at all times.
    #[verifier::type_invariant]
    pub open spec fn wf(&self) -> bool {
        self@.inv()
    }

    /// Takes an item apart and leaves an empty open item in its place.
    fn take_apart(&mut self) -> (parts: (u128, bool, bool, String, String, RichText))
        ensures
            parts.0 == old(self)@.id,
            parts.1 == old(self)@.done,
            parts.2 == old(self)@.selected,
            parts.3@ == old(self)@.text,
            parts.4@ == old(self)@.stash,
            parts.5@ == old(self)@.rendered,
    {
        let mut taken = TodoItem::with_id(0, "");
        std::mem::swap(self, &mut taken);
        let TodoItem { id, done, editing: _, selected, text, stash, rendered } = taken;
        (id, done, selected, text, stash, rendered)
    }

    /// A new open item with a random identifier.
    ///
    /// The identifier is whatever the generator returned: that it differs
    /// from the identifiers already in use is for the caller to establish.
    pub fn new(text: &str) -> (item: TodoItem)
        ensures
            item@ == ItemView::fresh(item@.id, text@),
            is_random_layout(item@.id),
            item.wf(),
    {
        TodoItem::with_id(fresh_id(), text)
    }

    /// A new open item with the given identifier.
    pub fn with_id(id: u128, text: &str) -> (item: TodoItem)
        ensures
            item@ == ItemView::fresh(id, text@),
            item.wf(),
    {
        TodoItem {
            id,
            done: false,
            editing: false,
            selected: false,
            text: text.to_owned(),
            stash: text.to_owned(),
            rendered: RichText::render(text, false),
        }
    }

    /// An item with the given content; `active` says whether it is being
    /// edited. Its display form is computed from `text` and `done`.
    pub fn from_parts(id: u128, text: String, stash: String, done: bool, active: bool) -> (item:
        TodoItem)
        ensures
            item@ == ItemView::assembled(id, text@, stash@, done, active),
            item.wf(),
    {
        let rendered = RichText::render(text.as_str(), done);
        TodoItem { id, done, editing: active, selected: active, text, stash, rendered }
    }

    /// Computes the display form of `text`.
    pub fn render(text: &str, done: bool) -> (out: RichText)
        ensures
            out@ == display_of(text@, done),
    {
        RichText::render(text, done)
    }

    /// The identifier, which never changes.
    pub fn id(&self) -> (id: u128)
        ensures
            id == self@.id,
    {
        self.id
    }

    /// The current text.
    pub fn text(&self) -> (text: &str)
        ensures
            text@ == self@.text,
    {
        self.text.as_str()
    }

    /// The text as it was when the running (or the last) edit session began.
    pub fn stash(&self) -> (text: &str)
        ensures
            text@ == self@.stash,
    {
        self.stash.as_str()
    }

    /// Whether the item is completed.
    pub fn is_done(&self) -> (done: bool)
        ensures
            done == self@.done,
    {
        self.done
    }

    /// Whether the item is the selected one.
    pub fn is_selected(&self) -> (selected: bool)
        ensures
            selected == self@.selected,
            selected == self@.editing,
    {
        proof {
            use_type_invariant(self);
        }
        self.selected
    }

    /// Whether the item is being edited.
    pub fn is_editing(&self) -> (editing: bool)
        ensures
            editing == self@.editing,
            editing == self@.selected,
    {
        proof {
            use_type_invariant(self);
        }
        self.editing
    }

    /// The cached display form, which is up to date whenever the item is
    /// idle.
    pub fn rendered(&self) -> (out: &RichText)
        ensures
            out@ == self@.rendered,
            !self@.selected ==> out@ == display_of(self@.text, self@.done),
    {
        proof {
            use_type_invariant(self);
        }
        &self.rendered
    }

    /// Whether the edit surface is shown in place of the display form.
    pub fn shows_editor(&self) -> (shown: bool)
        ensures
            shown == (self@.selected && self@.editing),
    {
        self.selected && self.editing
    }

    /// The durable fields, as they are stored.
    pub fn record(&self) -> (r: SerdeTodoItem)
        ensures
            r@ == self@.record(),
    {
        SerdeTodoItem { id: self.id, done: self.done, text: self.text.clone() }
    }

    /// Enters an edit session.
    pub fn gain_selection(&mut self)
        ensures
            final(self)@ == old(self)@.activate(),
            final(self).wf(),
    {
        let (id, done, _, text, _, rendered) = self.take_apart();
        let stash = text.clone();
        *self = TodoItem { id, done, editing: true, selected: true, text, stash, rendered };
    }

    /// Leaves the edit session.
    pub fn lose_selection(&mut self)
        ensures
            final(self)@ == old(self)@.deactivate(),
            final(self).wf(),
    {
        let (id, done, _, text, stash, _) = self.take_apart();
        let rendered = RichText::render(text.as_str(), done);
        *self = TodoItem { id, done, editing: false, selected: false, text, stash, rendered };
    }

    /// Puts back the text that the running edit session started from.
    pub fn cancel_edit(&mut self)
        ensures
            final(self)@ == old(self)@.revert(),
            final(self).wf(),
    {
        proof {
            use_type_invariant(&*self);
        }
        if self.editing {
            self.text = self.stash.clone();
        }
    }

    /// Replaces the text while the item is being edited.
    pub fn set_text(&mut self, text: &str)
        ensures
            final(self)@ == old(self)@.edited(text@),
            final(self).wf(),
    {
        proof {
            use_type_invariant(&*self);
        }
        if self.editing {
            self.text = text.to_owned();
        }
    }

    /// Recomputes the display form from the current text and flag.
    pub fn rebuild(&mut self)
        ensures
            final(self)@ == old(self)@.rebuilt(),
            final(self).wf(),
    {
        proof {
            use_type_invariant(&*self);
        }
        self.rendered = RichText::render(self.text.as_str(), self.done);
    }

    /// Flips the completion flag and recomputes the display form.
    pub fn toggle_done(&mut self)
        ensures
            final(self)@ == old(self)@.toggled(),
            final(self).wf(),
    {
        proof {
            use_type_invariant(&*self);
        }
        let (id, done, active, text, stash, _) = self.take_apart();
        let rendered = RichText::render(text.as_str(), !done);
        *self = TodoItem { id, done: !done, editing: active, selected: active, text, stash, rendered };
    }

    /// A click on the item: ask for it to be selected, unless it already is.
    pub fn select(&self) -> (requests: Vec<Request>)
        ensures
            requests@ == TodoItem::select_requests(self@),
    {
        let mut requests: Vec<Request> = Vec::new();
        if !self.selected {
            requests.push(Request::Submit(Command::Select(self.id)));
            requests.push(Request::Focus);
        }
        requests
    }

    /// A double click on the item: the same as a click, and then the whole
    /// text of the edit surface is selected so that typing replaces it.
    pub fn double_click(&self) -> (requests: Vec<Request>)
        ensures
            requests@ == TodoItem::select_requests(self@) + seq![
                Request::Layout,
                Request::SelectAll,
            ],
    {
        let mut requests = self.select();
        requests.push(Request::Layout);
        requests.push(Request::SelectAll);
        requests
    }

    /// Done with the item: ask for its edit session to end with the text
    /// kept, and for its display form to be recomputed.
    pub fn save(&self) -> (requests: Vec<Request>)
        ensures
            requests@ == seq![
                Request::Submit(Command::UnselectConfirm(self@.id)),
                Request::Submit(Command::Rebuild(self@.id)),
            ],
    {
        let mut requests: Vec<Request> = Vec::new();
        requests.push(Request::Submit(Command::UnselectConfirm(self.id)));
        requests.push(Request::Submit(Command::Rebuild(self.id)));
        requests
    }

    /// What a click on an item asks for.
    pub open spec fn select_requests(item: ItemView) -> Seq<Request> {
        if item.selected {
            Seq::empty()
        } else {
            seq![Request::Submit(Command::Select(item.id)), Request::Focus]
        }
    }
}

} // verus!
