//! The tool catalogue and the dispatcher.
//!
//! Tools are opaque named operations the backend may invoke mid-turn.
//! The catalogue is static for the process lifetime.  Dispatch never
//! throws: an unknown name or unusable arguments become a textual error
//! result addressed to the call's id, because the backend must see one
//! result for every call it issued or the protocol round is malformed.
//! The one operation that needs the chat platform (listing a guild's
//! channels) is handed out as a directive; its reply is assembled here,
//! with failure again encoded as text.

use vstd::prelude::*;
use vstd::string::StringExecFns;

use crate::completion::{ToolCall, ToolResult, ToolResultView};
use crate::json::{get_field, json_error_payload, json_error_string, json_parses, parse_json,
    value_as_string, value_as_u64};
use crate::text::{dec_rep, join_lines, joined, parse_u64, u64_to_string};

verus! {

/// One entry of the tool catalogue offered to the backend.
#[derive(Debug)]
pub struct ToolDefinition {
    /// The unique tool name.
    pub name: String,
    /// What the tool does, for the backend.
    pub description: String,
    /// The JSON schema of the arguments, as JSON text.
    pub parameters: String,
}

/// Mathematical image of a [`ToolDefinition`].
#[verifier::ext_equal]
pub struct ToolDefinitionView {
    pub name: Seq<char>,
    pub description: Seq<char>,
    pub parameters: Seq<char>,
}

impl View for ToolDefinition {
    type V = ToolDefinitionView;

    open spec fn view(&self) -> ToolDefinitionView {
        ToolDefinitionView {
            name: self.name@,
            description: self.description@,
            parameters: self.parameters@,
        }
    }
}

/// The static tool catalogue: the one channel-listing tool.  Every
/// field is pinned, so the catalogue is the same value on every call.
pub fn tool_definitions() -> (r: Vec<ToolDefinition>)
    ensures
        r@.len() == 1,
        r@[0]@.name == "get_channel_id_list_from_guild_id"@,
        r@[0]@.description
            == "List channel id from guild id. Columns are output as `<channel_name>: <channel_id> (<channel_type>)`."@,
        r@[0]@.parameters
            == "{\"type\":\"object\",\"properties\":{\"guild_id\":{\"type\":\"integer\",\"description\":\"Guild id.\"}},\"required\":[\"guild_id\"]}"@,
{
    let def = ToolDefinition {
        name: "get_channel_id_list_from_guild_id".to_owned(),
        description:
            "List channel id from guild id. Columns are output as `<channel_name>: <channel_id> (<channel_type>)`.".to_owned(),
        parameters:
            "{\"type\":\"object\",\"properties\":{\"guild_id\":{\"type\":\"integer\",\"description\":\"Guild id.\"}},\"required\":[\"guild_id\"]}".to_owned(),
    };
    let mut r: Vec<ToolDefinition> = Vec::new();
    r.push(def);
    r
}

/// What the dispatcher decides for one tool call: either the result is
/// already known, or the chat platform must list a guild's channels.
#[derive(Debug)]
pub enum ToolDirective {
    /// The result is decided without outside work.
    Reply { result: ToolResult },
    /// The caller must fetch the channel list of this guild and feed
    /// the outcome to [`channel_list_result`].
    FetchChannelList { call_id: String, guild_id: u64 },
}

/// Mathematical image of a [`ToolDirective`].
#[verifier::ext_equal]
pub enum ToolDirectiveView {
    Reply { result: ToolResultView },
    FetchChannelList { call_id: Seq<char>, guild_id: u64 },
}

impl View for ToolDirective {
    type V = ToolDirectiveView;

    open spec fn view(&self) -> ToolDirectiveView {
        match self {
            ToolDirective::Reply { result } => ToolDirectiveView::Reply { result: result@ },
            ToolDirective::FetchChannelList { call_id, guild_id } =>
                ToolDirectiveView::FetchChannelList {
                call_id: call_id@,
                guild_id: *guild_id,
            },
        }
    }
}

/// The call id a directive answers.
pub open spec fn directive_call_id(d: ToolDirectiveView) -> Seq<char> {
    match d {
        ToolDirectiveView::Reply { result } => result.call_id,
        ToolDirectiveView::FetchChannelList { call_id, .. } => call_id,
    }
}

/// The error message for an unregistered tool name.
pub open spec fn unknown_tool_message(name: Seq<char>) -> Seq<char> {
    "unknown tool: "@ + name
}

/// Extracts the guild id from the raw JSON arguments of the
/// channel-listing tool: the `guild_id` field, or `query` as a
/// fallback, taken as an integer or as a decimal string.  Unparsable
/// arguments yield `None`, a data case, never a failure.
pub fn guild_id_from_args(arguments: &str) -> (r: Option<u64>)
    ensures
        !json_parses(arguments@) ==> r is None,
{
    let parsed = match parse_json(arguments) {
        Some(v) => v,
        None => {
            return None;
        }
    };
    let field = match get_field(&parsed, "guild_id") {
        Some(v) => Some(v),
        None => get_field(&parsed, "query"),
    };
    let field = match field {
        Some(v) => v,
        None => {
            return None;
        }
    };
    match value_as_u64(field) {
        Some(g) => Some(g),
        None => match value_as_string(field) {
            Some(s) => parse_u64(s.as_str()),
            None => None,
        },
    }
}

/// Decides the channel-listing tool call from its extracted guild id:
/// a fetch directive when one is there, else the textual
/// `Invalid Guild ID` result — the turn goes on either way.
pub fn channel_tool_directive(call_id: String, guild_id: Option<u64>) -> (r: ToolDirective)
    ensures
        guild_id matches Some(g) ==> r@ == (ToolDirectiveView::FetchChannelList {
            call_id: call_id@,
            guild_id: g,
        }),
        guild_id is None ==> r@ == (ToolDirectiveView::Reply {
            result: ToolResultView { call_id: call_id@, output: "Invalid Guild ID"@ },
        }),
{
    match guild_id {
        Some(guild_id) => ToolDirective::FetchChannelList { call_id, guild_id },
        None => ToolDirective::Reply {
            result: ToolResult { call_id, output: "Invalid Guild ID".to_owned() },
        },
    }
}

/// Dispatches one tool call.  The directive always answers the call's
/// own id.  An unregistered name gets the JSON error payload naming it;
/// the registered tool is decided by its extracted guild id.  No input
/// makes this fail: protocol continuity demands a result for every
/// call.
pub fn dispatch_tool_call(call: &ToolCall) -> (r: ToolDirective)
    ensures
        directive_call_id(r@) == call.id@,
        call.name@ != "get_channel_id_list_from_guild_id"@ ==> r@ == (ToolDirectiveView::Reply {
            result: ToolResultView {
                call_id: call.id@,
                output: json_error_payload(unknown_tool_message(call.name@)),
            },
        }),
        call.name@ == "get_channel_id_list_from_guild_id"@ ==> (r@ matches
            ToolDirectiveView::Reply { result } ==> result.output == "Invalid Guild ID"@),
        call.name@ == "get_channel_id_list_from_guild_id"@ && !json_parses(call.arguments@)
            ==> r@ == (ToolDirectiveView::Reply {
            result: ToolResultView { call_id: call.id@, output: "Invalid Guild ID"@ },
        }),
{
    let known: String = "get_channel_id_list_from_guild_id".to_owned();
    if call.name == known {
        let guild_id = guild_id_from_args(call.arguments.as_str());
        channel_tool_directive(call.id.clone(), guild_id)
    } else {
        let mut msg: String = "unknown tool: ".to_owned();
        msg.append(call.name.as_str());
        let output = json_error_string(msg.as_str());
        ToolDirective::Reply { result: ToolResult { call_id: call.id.clone(), output } }
    }
}

/// Dispatches a whole round of tool calls: exactly one directive per
/// call, in request order, each answering its own call's id.  No call
/// is ever dropped, whatever its name or arguments, so the backend gets
/// one result for every call it issued.
pub fn dispatch_tool_calls(calls: &Vec<ToolCall>) -> (r: Vec<ToolDirective>)
    ensures
        r@.len() == calls@.len(),
        forall|i: int|
            0 <= i < r@.len() ==> directive_call_id((#[trigger] r@[i])@) == calls@[i]@.id,
{
    let n = calls.len();
    let mut r: Vec<ToolDirective> = Vec::new();
    let mut i: usize = 0;
    while i < n
        invariant
            n == calls@.len(),
            i <= n,
            r@.len() == i,
            forall|j: int|
                0 <= j < i ==> directive_call_id((#[trigger] r@[j])@) == calls@[j]@.id,
        decreases n - i,
    {
        r.push(dispatch_tool_call(&calls[i]));
        i = i + 1;
    }
    r
}

/// One channel of a guild, reduced to what the tool reports.
#[derive(Debug)]
pub struct ChannelInfo {
    /// The channel's name.
    pub name: String,
    /// The channel's numeric id.
    pub id: u64,
    /// The channel's kind, already rendered as text.
    pub kind: String,
}

/// Mathematical image of a [`ChannelInfo`].
#[verifier::ext_equal]
pub struct ChannelInfoView {
    pub name: Seq<char>,
    pub id: u64,
    pub kind: Seq<char>,
}

impl View for ChannelInfo {
    type V = ChannelInfoView;

    open spec fn view(&self) -> ChannelInfoView {
        ChannelInfoView { name: self.name@, id: self.id, kind: self.kind@ }
    }
}

/// The line reported for one channel: `<name>: <id> (<kind>)`.
pub open spec fn channel_line(c: ChannelInfoView) -> Seq<char> {
    c.name + ": "@ + dec_rep(c.id as nat) + " ("@ + c.kind + ")"@
}

/// The whole report: one line per channel, joined with newlines.
pub open spec fn channel_list_text(cs: Seq<ChannelInfoView>) -> Seq<char> {
    joined(cs.map_values(|c: ChannelInfoView| channel_line(c)), "\n"@)
}

/// Assembles the result of a finished channel-list fetch: the channel
/// report on success, a textual failure notice otherwise.  Either way
/// the call id gets exactly one result — a failed fetch never aborts
/// the turn.
pub fn channel_list_result(call_id: String, outcome: Result<Vec<ChannelInfo>, String>) -> (r:
    ToolResult)
    ensures
        r@.call_id == call_id@,
        outcome matches Ok(cs) ==> r@.output == channel_list_text(
            cs@.map_values(|c: ChannelInfo| c@),
        ),
        outcome matches Err(e) ==> r@.output == "Failed to fetch channels: "@ + e@,
{
    match outcome {
        Ok(cs) => {
            let n = cs.len();
            let mut lines: Vec<String> = Vec::new();
            let mut i: usize = 0;
            while i < n
                invariant
                    n == cs@.len(),
                    i <= n,
                    lines@.len() == i,
                    forall|j: int|
                        0 <= j < i ==> (#[trigger] lines@[j])@ == channel_line(cs@[j]@),
                decreases n - i,
            {
                let mut line = cs[i].name.clone();
                line.append(": ");
                line.append(u64_to_string(cs[i].id).as_str());
                line.append(" (");
                line.append(cs[i].kind.as_str());
                line.append(")");
                lines.push(line);
                i = i + 1;
            }
            let output = join_lines(&lines, "\n");
            proof {
                assert(lines@.map_values(|s: String| s@) =~= cs@.map_values(
                    |c: ChannelInfo| c@,
                ).map_values(|c: ChannelInfoView| channel_line(c)));
            }
            ToolResult { call_id, output }
        }
        Err(e) => {
            let mut output: String = "Failed to fetch channels: ".to_owned();
            output.append(e.as_str());
            ToolResult { call_id, output }
        }
    }
}

} // verus!
