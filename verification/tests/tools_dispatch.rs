use neko_ai::completion::{ChoiceMessage, ModelReply, ToolCall};
use neko_ai::completion::{extract_completion, extract_tool_completion};
use neko_ai::error::AppError;
use neko_ai::tools::{
    channel_list_result, channel_tool_directive, dispatch_tool_call, dispatch_tool_calls,
    guild_id_from_args, tool_definitions, ChannelInfo, ToolDirective,
};

fn call(name: &str, arguments: &str) -> ToolCall {
    ToolCall { id: "id-9".to_string(), name: name.to_string(), arguments: arguments.to_string() }
}

#[test]
fn catalogue_has_the_channel_tool() {
    let defs = tool_definitions();
    assert_eq!(defs.len(), 1);
    assert_eq!(defs[0].name, "get_channel_id_list_from_guild_id");
    assert_eq!(
        defs[0].description,
        "List channel id from guild id. Columns are output as `<channel_name>: <channel_id> (<channel_type>)`."
    );
    assert_eq!(
        defs[0].parameters,
        "{\"type\":\"object\",\"properties\":{\"guild_id\":{\"type\":\"integer\",\"description\":\"Guild id.\"}},\"required\":[\"guild_id\"]}"
    );
    let schema: serde_json::Value = serde_json::from_str(&defs[0].parameters).unwrap();
    assert_eq!(schema["required"][0], "guild_id");
    // The catalogue is a fixed value: a second call returns the same entry.
    let again = tool_definitions();
    assert_eq!(again[0].name, defs[0].name);
    assert_eq!(again[0].description, defs[0].description);
    assert_eq!(again[0].parameters, defs[0].parameters);
}

#[test]
fn unknown_tool_yields_json_error_payload() {
    match dispatch_tool_call(&call("foo", "{}")) {
        ToolDirective::Reply { result } => {
            assert_eq!(result.call_id, "id-9");
            assert_eq!(result.output, "{\"error\":\"unknown tool: foo\"}");
            let parsed: serde_json::Value = serde_json::from_str(&result.output).unwrap();
            assert_eq!(parsed["error"], "unknown tool: foo");
        }
        _ => panic!("an unknown tool must be answered directly"),
    }
}

#[test]
fn unknown_tool_message_is_escaped_json() {
    match dispatch_tool_call(&call("we\"ird", "{}")) {
        ToolDirective::Reply { result } => {
            let parsed: serde_json::Value = serde_json::from_str(&result.output).unwrap();
            assert_eq!(parsed["error"], "unknown tool: we\"ird");
        }
        _ => panic!(),
    }
}

#[test]
fn integer_guild_id_becomes_fetch() {
    match dispatch_tool_call(&call("get_channel_id_list_from_guild_id", "{\"guild_id\": 42}")) {
        ToolDirective::FetchChannelList { call_id, guild_id } => {
            assert_eq!(call_id, "id-9");
            assert_eq!(guild_id, 42);
        }
        _ => panic!("a valid guild id must be fetched"),
    }
}

#[test]
fn string_guild_id_is_parsed() {
    assert_eq!(guild_id_from_args("{\"guild_id\": \"99\"}"), Some(99));
}

#[test]
fn query_field_is_a_fallback() {
    assert_eq!(guild_id_from_args("{\"query\": 7}"), Some(7));
}

#[test]
fn bad_arguments_yield_invalid_guild_id() {
    assert_eq!(guild_id_from_args("not json"), None);
    assert_eq!(guild_id_from_args("{\"guild_id\": \"xyz\"}"), None);
    assert_eq!(guild_id_from_args("{}"), None);
    match dispatch_tool_call(&call("get_channel_id_list_from_guild_id", "{}")) {
        ToolDirective::Reply { result } => {
            assert_eq!(result.output, "Invalid Guild ID");
        }
        _ => panic!(),
    }
}

#[test]
fn round_dispatch_answers_every_call() {
    let calls = vec![
        call("foo", "{}"),
        ToolCall {
            id: "id-2".to_string(),
            name: "get_channel_id_list_from_guild_id".to_string(),
            arguments: "{\"guild_id\": 1}".to_string(),
        },
    ];
    let directives = dispatch_tool_calls(&calls);
    assert_eq!(directives.len(), 2);
    match &directives[0] {
        ToolDirective::Reply { result } => assert_eq!(result.call_id, "id-9"),
        _ => panic!(),
    }
    match &directives[1] {
        ToolDirective::FetchChannelList { call_id, guild_id } => {
            assert_eq!(call_id, "id-2");
            assert_eq!(*guild_id, 1);
        }
        _ => panic!(),
    }
}

#[test]
fn directive_keeps_call_id() {
    match channel_tool_directive("abc".to_string(), Some(5)) {
        ToolDirective::FetchChannelList { call_id, guild_id } => {
            assert_eq!(call_id, "abc");
            assert_eq!(guild_id, 5);
        }
        _ => panic!(),
    }
}

#[test]
fn channel_report_lines() {
    let channels = vec![
        ChannelInfo { name: "general".to_string(), id: 42, kind: "Text".to_string() },
        ChannelInfo { name: "music".to_string(), id: 7, kind: "Voice".to_string() },
    ];
    let r = channel_list_result("cid".to_string(), Ok(channels));
    assert_eq!(r.call_id, "cid");
    assert_eq!(r.output, "general: 42 (Text)\nmusic: 7 (Voice)");
}

#[test]
fn empty_channel_report() {
    let r = channel_list_result("cid".to_string(), Ok(vec![]));
    assert_eq!(r.output, "");
}

#[test]
fn failed_fetch_becomes_text() {
    let r = channel_list_result("cid".to_string(), Err("Missing Access".to_string()));
    assert_eq!(r.output, "Failed to fetch channels: Missing Access");
}

fn choice(content: Option<&str>, tool_calls: Option<Vec<ToolCall>>) -> ChoiceMessage {
    ChoiceMessage { content: content.map(|s| s.to_string()), tool_calls }
}

#[test]
fn empty_choices_is_upstream_error() {
    match extract_completion(vec![]) {
        Err(AppError::AIError(d)) => assert_eq!(d, "No response from OpenAI"),
        _ => panic!("expected an upstream error"),
    }
}

#[test]
fn missing_content_is_upstream_error() {
    match extract_completion(vec![choice(None, None)]) {
        Err(AppError::AIError(d)) => assert_eq!(d, "No response content from OpenAI"),
        _ => panic!("expected an upstream error"),
    }
}

#[test]
fn first_choice_content_wins() {
    match extract_completion(vec![choice(Some("hi"), None), choice(Some("ignored"), None)]) {
        Ok(t) => assert_eq!(t, "hi"),
        _ => panic!(),
    }
}

#[test]
fn tool_calls_win_over_content() {
    let calls = vec![ToolCall {
        id: "1".to_string(),
        name: "t".to_string(),
        arguments: "{}".to_string(),
    }];
    match extract_tool_completion(vec![choice(None, Some(calls))]) {
        Ok(ModelReply::ToolCalls { text, calls }) => {
            assert_eq!(text, "");
            assert_eq!(calls.len(), 1);
            assert_eq!(calls[0].id, "1");
        }
        _ => panic!("expected tool calls"),
    }
}

#[test]
fn no_tool_calls_is_final_text() {
    match extract_tool_completion(vec![choice(Some("done"), None)]) {
        Ok(ModelReply::Final { text }) => assert_eq!(text, "done"),
        _ => panic!(),
    }
}
