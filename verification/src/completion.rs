//! The messages exchanged with the completion backend, and the
//! extraction of a usable reply from its response.
//!
//! The backend itself is an external collaborator; the library speaks of
//! it only through these plain data types.  The caller that performs the
//! network request converts its wire structures into [`ChoiceMessage`]
//! values and hands them to [`extract_completion`] or
//! [`extract_tool_completion`], whose contracts pin down exactly which
//! responses count as usable and which are upstream errors.

use vstd::prelude::*;

use crate::error::AppError;

verus! {

/// A tool invocation requested by the backend.
#[derive(Debug)]
pub struct ToolCall {
    /// Opaque id correlating the request with its result.
    pub id: String,
    /// The name of the tool to run.
    pub name: String,
    /// The raw JSON text of the arguments.
    pub arguments: String,
}

/// Mathematical image of a [`ToolCall`].
#[verifier::ext_equal]
pub struct ToolCallView {
    pub id: Seq<char>,
    pub name: Seq<char>,
    pub arguments: Seq<char>,
}

impl View for ToolCall {
    type V = ToolCallView;

    open spec fn view(&self) -> ToolCallView {
        ToolCallView { id: self.id@, name: self.name@, arguments: self.arguments@ }
    }
}

/// The textual outcome of one tool invocation.  One result is produced
/// for every call, failure included: failure is encoded in the text,
/// never raised.
#[derive(Debug)]
pub struct ToolResult {
    /// The id of the call this result answers.
    pub call_id: String,
    /// The textual output, or a textual error payload.
    pub output: String,
}

/// Mathematical image of a [`ToolResult`].
#[verifier::ext_equal]
pub struct ToolResultView {
    pub call_id: Seq<char>,
    pub output: Seq<char>,
}

impl View for ToolResult {
    type V = ToolResultView;

    open spec fn view(&self) -> ToolResultView {
        ToolResultView { call_id: self.call_id@, output: self.output@ }
    }
}

/// One message of the working context sent to the backend.
#[derive(Debug)]
pub enum WireMessage {
    /// The system prompt.
    System { content: String },
    /// An end-user utterance.
    User { content: String },
    /// A backend reply, possibly carrying tool-call intents.
    Assistant { content: String, tool_calls: Vec<ToolCall> },
    /// The result of one tool call, addressed by its id.
    Tool { call_id: String, content: String },
}

/// Mathematical image of a [`WireMessage`].
#[verifier::ext_equal]
pub enum WireMessageView {
    System { content: Seq<char> },
    User { content: Seq<char> },
    Assistant { content: Seq<char>, tool_calls: Seq<ToolCallView> },
    Tool { call_id: Seq<char>, content: Seq<char> },
}

impl View for WireMessage {
    type V = WireMessageView;

    open spec fn view(&self) -> WireMessageView {
        match self {
            WireMessage::System { content } => WireMessageView::System { content: content@ },
            WireMessage::User { content } => WireMessageView::User { content: content@ },
            WireMessage::Assistant { content, tool_calls } => WireMessageView::Assistant {
                content: content@,
                tool_calls: tool_calls@.map_values(|c: ToolCall| c@),
            },
            WireMessage::Tool { call_id, content } => WireMessageView::Tool {
                call_id: call_id@,
                content: content@,
            },
        }
    }
}

/// The message of one choice of a backend response, reduced to the
/// fields the orchestration reads.
#[derive(Debug)]
pub struct ChoiceMessage {
    /// The textual content, when the backend produced one.
    pub content: Option<String>,
    /// The tool calls, when the backend elected to invoke tools.
    pub tool_calls: Option<Vec<ToolCall>>,
}

/// A usable reply extracted from a backend response: either a final
/// text, or a set of requested tool invocations with optional preamble
/// text.
#[derive(Debug)]
pub enum ModelReply {
    Final { text: String },
    ToolCalls { text: String, calls: Vec<ToolCall> },
}

/// Extracts the final text of a tools-less completion: the first
/// choice's content.  An empty choice list or a choice without content
/// is an upstream error, never a partial result.
pub fn extract_completion(choices: Vec<ChoiceMessage>) -> (r: Result<String, AppError>)
    ensures
        choices@.len() == 0 ==> (r matches Err(e) && e matches AppError::AIError(d) && d@
            == "No response from OpenAI"@),
        choices@.len() > 0 && choices@[0].content is None ==> (r matches Err(e) && e matches
            AppError::AIError(d) && d@ == "No response content from OpenAI"@),
        choices@.len() > 0 && choices@[0].content is Some ==> (r matches Ok(t) && t@
            == choices@[0].content.unwrap()@),
{
    let mut choices = choices;
    if choices.len() == 0 {
        return Err(AppError::AIError("No response from OpenAI".to_owned()));
    }
    let first = choices.remove(0);
    match first.content {
        Some(c) => Ok(c),
        None => Err(AppError::AIError("No response content from OpenAI".to_owned())),
    }
}

/// Extracts a usable reply from a tools-enabled completion.  When the
/// first choice carries tool calls they win, with the content (empty if
/// absent) as preamble; otherwise the content is the final text and its
/// absence is an upstream error.
pub fn extract_tool_completion(choices: Vec<ChoiceMessage>) -> (r: Result<ModelReply, AppError>)
    ensures
        choices@.len() == 0 ==> (r matches Err(e) && e matches AppError::AIError(d) && d@
            == "No response from OpenAI"@),
        choices@.len() > 0 && choices@[0].tool_calls is Some ==> (r matches Ok(reply)
            && reply matches ModelReply::ToolCalls { text, calls } && calls@.map_values(
            |c: ToolCall| c@,
        ) == choices@[0].tool_calls.unwrap()@.map_values(|c: ToolCall| c@) && text@ == (
        if choices@[0].content is Some {
            choices@[0].content.unwrap()@
        } else {
            Seq::<char>::empty()
        })),
        choices@.len() > 0 && choices@[0].tool_calls is None && choices@[0].content is Some
            ==> (r matches Ok(reply) && reply matches ModelReply::Final { text } && text@
            == choices@[0].content.unwrap()@),
        choices@.len() > 0 && choices@[0].tool_calls is None && choices@[0].content is None ==> (
        r matches Err(e) && e matches AppError::AIError(d) && d@
            == "No response content from OpenAI"@),
{
    let mut choices = choices;
    if choices.len() == 0 {
        return Err(AppError::AIError("No response from OpenAI".to_owned()));
    }
    let first = choices.remove(0);
    match first.tool_calls {
        Some(calls) => {
            let text = match first.content {
                Some(c) => c,
                None => String::new(),
            };
            Ok(ModelReply::ToolCalls { text, calls })
        }
        None => match first.content {
            Some(c) => Ok(ModelReply::Final { text: c }),
            None => Err(AppError::AIError("No response content from OpenAI".to_owned())),
        },
    }
}

} // verus!
