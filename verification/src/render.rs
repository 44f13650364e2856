//! The display projection of a todo item.
//!
//! What an idle item shows is a pure function of its text and its completion
//! flag: a completed item is wrapped in tildes and shown italic and muted, an
//! open one is shown as typed.

use vstd::prelude::*;
use vstd::string::*;

verus! {

/// Mathematical content of a [`RichText`].
pub struct RichTextView {
    pub content: Seq<char>,
    pub italic: bool,
    pub muted: bool,
}

/// Styled text, ready to be handed to a drawing surface.
#[derive(Debug, PartialEq, Eq)]
pub struct RichText {
    content: String,
    italic: bool,
    muted: bool,
}

impl View for RichText {
    type V = RichTextView;

    closed spec fn view(&self) -> RichTextView {
        RichTextView { content: self.content@, italic: self.italic, muted: self.muted }
    }
}

impl Clone for RichText {
    fn clone(&self) -> (copy: RichText)
        ensures
            copy@ == self@,
    {
        RichText { content: self.content.clone(), italic: self.italic, muted: self.muted }
    }
}

/// The display form of `text` for an item whose completion flag is `done`.
pub open spec fn display_of(text: Seq<char>, done: bool) -> RichTextView {
    if done {
        RichTextView { content: seq!['~'] + text + seq!['~'], italic: true, muted: true }
    } else {
        RichTextView { content: text, italic: false, muted: false }
    }
}

impl RichText {
    /// Computes the display form of `text`.
    pub fn render(text: &str, done: bool) -> (out: RichText)
        ensures
            out@ == display_of(text@, done),
    {
        if done {
            proof {
                reveal_strlit("~");
            }
            assert("~"@ =~= seq!['~']);
            let content = "~".to_owned().concat(text).concat("~");
            RichText { content, italic: true, muted: true }
        } else {
            RichText { content: text.to_owned(), italic: false, muted: false }
        }
    }

    /// The characters to draw.
    pub fn content(&self) -> (s: &str)
        ensures
            s@ == self@.content,
    {
        self.content.as_str()
    }

    /// Whether the text is drawn in italics.
    pub fn is_italic(&self) -> (b: bool)
        ensures
            b == self@.italic,
    {
        self.italic
    }

    /// Whether the text is drawn in the muted placeholder colour.
    pub fn is_muted(&self) -> (b: bool)
        ensures
            b == self@.muted,
    {
        self.muted
    }
}

} // verus!
