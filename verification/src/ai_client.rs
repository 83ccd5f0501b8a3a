//! The completion-client abstraction of the provider-agnostic variant,
//! with its one built-in tool.
//!
//! A client turns a finished prompt into a reply; implementations wrap
//! a concrete provider outside the library.  The built-in `send_message`
//! tool is pure data here: its definition and its (constant) reply.

use vstd::prelude::*;

use crate::config::{Model, Provider};
use crate::error::AppError;
use crate::tools::ToolDefinition;

verus! {

/// A completion client: from a finished conversation text to a reply.
pub trait AIClient: Sized {
    /// Builds a client against the given provider and model.
    fn new(api_key: String, provider: Provider, model: Model) -> Result<Self, AppError>;

    /// Produces the backend's reply to the conversation.
    fn generate(&self, conversation: String) -> Result<String, AppError>;
}

/// Produces a reply to the prompt through the given client.
pub fn proccess_message<C: AIClient>(client: &C, prompt: String) -> Result<String, AppError> {
    client.generate(prompt)
}

/// The arguments of the `send_message` tool.
#[derive(Debug)]
pub struct OperationArgs {
    /// The message text to deliver.
    pub content: String,
    /// The channel to deliver it to.
    pub target_channel_id: u64,
}

/// The failure of a `send_message` delivery.
#[derive(Debug)]
pub struct DiscordMessageSendError;

impl DiscordMessageSendError {
    /// A human-readable description of the error.
    pub fn message(&self) -> (r: String)
        ensures
            r@ == "Discord message send error"@,
    {
        "Discord message send error".to_owned()
    }
}

/// The built-in message-delivery tool.
#[derive(Debug)]
pub struct Test;

impl Test {
    /// The catalogue entry of the tool.
    pub fn definition(&self) -> (r: ToolDefinition)
        ensures
            r@.name == "send_message"@,
            r@.description == "Send message to target channel"@,
    {
        ToolDefinition {
            name: "send_message".to_owned(),
            description: "Send message to target channel".to_owned(),
            parameters:
                "{\"type\":\"object\",\"properties\":{\"content\":{\"type\":\"string\",\"description\":\"Message content\"},\"target_channel_id\":{\"type\":\"integer\",\"description\":\"Target channel ID\"}},\"required\":[\"content\",\"target_channel_id\"]}".to_owned(),
        }
    }

    /// Answers one invocation of the tool.
    pub fn call(&self, _args: OperationArgs) -> (r: Result<String, DiscordMessageSendError>)
        ensures
            r matches Ok(s) && s@ == "Succeccfly send message"@,
    {
        Ok("Succeccfly send message".to_owned())
    }
}

} // verus!
