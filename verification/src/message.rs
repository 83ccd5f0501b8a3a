//! The utterances that a conversation is made of.
//!
//! A message pairs a role with its text.  Messages are immutable once
//! created; ordering inside a history is significant.

use vstd::prelude::*;

verus! {

/// Who produced a message.
#[derive(Clone, Copy, PartialEq, Eq, Structural, Debug)]
pub enum MessageRole {
    System,
    User,
    Assistant,
}

/// One utterance of a conversation.
#[derive(Clone, Debug)]
pub struct Message {
    pub role: MessageRole,
    pub content: String,
}

/// Mathematical image of a [`Message`]: the role and the text as a
/// sequence of characters.
#[verifier::ext_equal]
pub struct MessageView {
    pub role: MessageRole,
    pub content: Seq<char>,
}

impl View for Message {
    type V = MessageView;

    open spec fn view(&self) -> MessageView {
        MessageView { role: self.role, content: self.content@ }
    }
}

impl Message {
    /// Builds a message from a role and its text.
    pub fn new(role: MessageRole, content: String) -> (m: Message)
        ensures
            m@.role == role,
            m@.content == content@,
    {
        Message { role, content }
    }
}

} // verus!
