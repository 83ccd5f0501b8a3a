//! Prompt management and context assembly for the chat paths.
//!
//! The service keeps the two system prompts: the plain one, swappable at
//! run time by an administrative action, and the one used when the tool
//! catalogue is offered to the backend.  Prompts are never stored in any
//! user's memory; they are supplied fresh for every turn, so an update
//! takes effect on the next turn.

use vstd::prelude::*;
use vstd::string::StringExecFns;

use crate::completion::WireMessage;
use crate::engine::fallback_messages;

verus! {

/// Holder of the system prompts used to open every context.
#[derive(Debug)]
pub struct ChatService {
    system_prompt: String,
    tool_system_prompt: String,
}

impl ChatService {
    /// The plain system prompt.
    pub closed spec fn spec_system_prompt(&self) -> Seq<char> {
        self.system_prompt@
    }

    /// The system prompt used when tools are offered.
    pub closed spec fn spec_tool_system_prompt(&self) -> Seq<char> {
        self.tool_system_prompt@
    }

    /// A service with the given plain prompt and the fixed default tool
    /// prompt.
    pub fn new(system_prompt: String) -> (r: ChatService)
        ensures
            r.spec_system_prompt() == system_prompt@,
            r.spec_tool_system_prompt() == "You are helpful discord assistant"@,
    {
        ChatService {
            system_prompt,
            tool_system_prompt: "You are helpful discord assistant".to_owned(),
        }
    }

    /// Replaces the plain system prompt, effective for all later turns.
    pub fn update_system_prompt(&mut self, new_prompt: String)
        ensures
            final(self).spec_system_prompt() == new_prompt@,
            final(self).spec_tool_system_prompt() == old(self).spec_tool_system_prompt(),
    {
        self.system_prompt = new_prompt;
    }

    /// Replaces the tool system prompt, effective for all later turns.
    pub fn update_tool_system_prompt(&mut self, new_prompt: String)
        ensures
            final(self).spec_tool_system_prompt() == new_prompt@,
            final(self).spec_system_prompt() == old(self).spec_system_prompt(),
    {
        self.tool_system_prompt = new_prompt;
    }

    /// The current plain system prompt.
    pub fn system_prompt(&self) -> (r: &str)
        ensures
            r@ == self.spec_system_prompt(),
    {
        self.system_prompt.as_str()
    }

    /// The current tool system prompt.
    pub fn tool_system_prompt(&self) -> (r: &str)
        ensures
            r@ == self.spec_tool_system_prompt(),
    {
        self.tool_system_prompt.as_str()
    }

    /// The context of a stateless one-shot request: just the plain
    /// system prompt and the user message, no history, no tools.
    pub fn single_chat_messages(&self, user_message: &str) -> (r: Vec<WireMessage>)
        ensures
            r@.map_values(|m: WireMessage| m@) == fallback_messages(
                self.spec_system_prompt(),
                user_message@,
            ),
    {
        let mut r: Vec<WireMessage> = Vec::new();
        r.push(WireMessage::System { content: self.system_prompt.clone() });
        r.push(WireMessage::User { content: user_message.to_owned() });
        proof {
            assert(r@.map_values(|m: WireMessage| m@) =~~= fallback_messages(
                self.spec_system_prompt(),
                user_message@,
            ));
        }
        r
    }
}

} // verus!
