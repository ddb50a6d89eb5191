//! What the user is to be shown.
//!
//! The functions of this crate print nothing. They record each line on a
//! [`Ui`], in the order in which it is to appear, and the caller shows them.

use vstd::prelude::*;

verus! {

/// One line for the user.
#[derive(Debug, PartialEq, Eq)]
pub enum Message {
    /// A warning.
    Warn(String),
    /// A status line that reports something as missing.
    Missing(String),
    /// A blank line.
    Br,
}

/// The mathematical value of a [`Message`].
pub enum MessageView {
    Warn(Seq<char>),
    Missing(Seq<char>),
    Br,
}

impl View for Message {
    type V = MessageView;

    open spec fn view(&self) -> MessageView {
        match self {
            Message::Warn(text) => MessageView::Warn(text@),
            Message::Missing(text) => MessageView::Missing(text@),
            Message::Br => MessageView::Br,
        }
    }
}

/// The lines recorded so far, oldest first.
#[derive(Debug, PartialEq, Eq)]
pub struct Ui {
    pub messages: Vec<Message>,
}

impl View for Ui {
    type V = Seq<MessageView>;

    open spec fn view(&self) -> Seq<MessageView> {
        Seq::new(self.messages@.len(), |k: int| self.messages@[k]@)
    }
}

impl Ui {
    /// A record without lines.
    pub fn new() -> (ui: Ui)
        ensures
            ui@ == Seq::<MessageView>::empty(),
    {
        Ui { messages: Vec::new() }
    }

    /// Records a warning.
    pub fn warn(&mut self, text: String)
        ensures
            final(self)@ == old(self)@.push(MessageView::Warn(text@)),
    {
        self.messages.push(Message::Warn(text));
    }

    /// Records a status line that reports `text` as missing.
    pub fn missing(&mut self, text: String)
        ensures
            final(self)@ == old(self)@.push(MessageView::Missing(text@)),
    {
        self.messages.push(Message::Missing(text));
    }

    /// Records a blank line.
    pub fn br(&mut self)
        ensures
            final(self)@ == old(self)@.push(MessageView::Br),
    {
        self.messages.push(Message::Br);
    }
}

} // verus!
