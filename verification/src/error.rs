//! Error taxonomy of the agent.

use vstd::prelude::*;
use vstd::string::StringExecFns;

use crate::text::{dec_rep, u64_to_string};

verus! {

/// The failures the agent can surface to its callers.
#[derive(Debug)]
pub enum AppError {
    /// The completion backend returned no usable reply.
    AIError(String),
    /// The chat platform rejected an operation.
    DiscordError(String),
    /// No conversation is stored for the given channel.
    ConversationNotFound(u64),
    /// The caller may not perform the operation.
    PermissionDenied { reason: String },
    /// Any other internal fault, described in text.
    InternalError(String),
}

impl AppError {
    /// A human-readable description of the error.
    pub fn message(&self) -> (r: String)
        ensures
            match self {
                AppError::AIError(d) => r@ == "AI error: "@ + d@,
                AppError::DiscordError(d) => r@ == "Discord error: "@ + d@,
                AppError::ConversationNotFound(ch) => r@ == "Conversation not found: channel "@
                    + dec_rep(*ch as nat),
                AppError::PermissionDenied { reason } => r@ == "Permission denied: "@ + reason@,
                AppError::InternalError(d) => r@ == d@,
            },
    {
        match self {
            AppError::AIError(d) => {
                let mut s: String = "AI error: ".to_owned();
                s.append(d.as_str());
                s
            }
            AppError::DiscordError(d) => {
                let mut s: String = "Discord error: ".to_owned();
                s.append(d.as_str());
                s
            }
            AppError::ConversationNotFound(ch) => {
                let mut s: String = "Conversation not found: channel ".to_owned();
                s.append(u64_to_string(*ch).as_str());
                s
            }
            AppError::PermissionDenied { reason } => {
                let mut s: String = "Permission denied: ".to_owned();
                s.append(reason.as_str());
                s
            }
            AppError::InternalError(d) => d.clone(),
        }
    }
}

} // verus!
