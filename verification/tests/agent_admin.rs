use neko_ai::agent::Agent;
use neko_ai::ai_client::{AIClient, OperationArgs, Test, proccess_message};
use neko_ai::chat::ChatService;
use neko_ai::completion::WireMessage;
use neko_ai::config::{default_log_level, default_max_token, Model, Provider};
use neko_ai::error::AppError;

#[test]
fn clear_history_on_unknown_user_succeeds() {
    let mut agent = Agent::new("sys".to_string());
    assert!(agent.clear_history("nobody").is_ok());
    assert_eq!(agent.active_conversations_count(), 0);
}

#[test]
fn clear_history_empties_known_user() {
    let mut agent = Agent::new("sys".to_string());
    let (mut engine, _) = agent.begin_turn("u", "hello", false);
    let outcome = match engine.on_model_final("hi".to_string()) {
        neko_ai::engine::TurnAction::Finish { outcome } => outcome,
        _ => panic!(),
    };
    agent.finish_turn("u", &outcome);
    assert_eq!(agent.get_history("u").unwrap().len(), 2);
    assert!(agent.clear_history("u").is_ok());
    assert_eq!(agent.get_history("u").unwrap().len(), 0);
}

#[test]
fn clear_all_histories_removes_users() {
    let mut agent = Agent::new("sys".to_string());
    agent.begin_turn("a", "x", false);
    agent.begin_turn("b", "y", false);
    assert_eq!(agent.active_conversations_count(), 2);
    assert!(agent.clear_all_histories().is_ok());
    assert_eq!(agent.active_conversations_count(), 0);
    assert!(agent.get_history("a").is_none());
}

#[test]
fn history_bound_is_configurable() {
    let mut agent = Agent::new("sys".to_string()).with_max_history(2);
    for i in 0..4 {
        let (mut engine, _) = agent.begin_turn("u", &format!("q{}", i), false);
        let outcome = match engine.on_model_final(format!("a{}", i)) {
            neko_ai::engine::TurnAction::Finish { outcome } => outcome,
            _ => panic!(),
        };
        agent.finish_turn("u", &outcome);
    }
    let hist: Vec<String> =
        agent.get_history("u").unwrap().iter().map(|m| m.content.clone()).collect();
    assert_eq!(hist, vec!["q3".to_string(), "a3".to_string()]);
}

#[test]
fn prompt_update_takes_effect_next_turn() {
    let mut agent = Agent::new("old prompt".to_string());
    agent.update_system_prompt("new prompt".to_string());
    let msgs = agent.simple_messages("hello");
    match &msgs[0] {
        WireMessage::System { content } => assert_eq!(content, "new prompt"),
        _ => panic!("the context must open with the system prompt"),
    }
    match &msgs[1] {
        WireMessage::User { content } => assert_eq!(content, "hello"),
        _ => panic!(),
    }
}

#[test]
fn chat_service_keeps_two_prompts() {
    let mut service = ChatService::new("plain".to_string());
    assert_eq!(service.system_prompt(), "plain");
    assert_eq!(service.tool_system_prompt(), "You are helpful discord assistant");
    service.update_system_prompt("p2".to_string());
    service.update_tool_system_prompt("t2".to_string());
    assert_eq!(service.system_prompt(), "p2");
    assert_eq!(service.tool_system_prompt(), "t2");
}

#[test]
fn defaults() {
    assert_eq!(default_log_level(), "info");
    assert_eq!(default_max_token(), 65536);
}

#[test]
fn error_messages() {
    assert_eq!(AppError::AIError("x".to_string()).message(), "AI error: x");
    assert_eq!(AppError::DiscordError("y".to_string()).message(), "Discord error: y");
    assert_eq!(
        AppError::PermissionDenied { reason: "no".to_string() }.message(),
        "Permission denied: no"
    );
    assert_eq!(AppError::InternalError("oops".to_string()).message(), "oops");
    assert_eq!(
        AppError::ConversationNotFound(7).message(),
        "Conversation not found: channel 7"
    );
}

struct EchoClient;

impl AIClient for EchoClient {
    fn new(_api_key: String, _provider: Provider, _model: Model) -> Result<Self, AppError> {
        Ok(EchoClient)
    }

    fn generate(&self, conversation: String) -> Result<String, AppError> {
        Ok(format!("echo: {}", conversation))
    }
}

#[test]
fn process_message_uses_the_client() {
    let client = EchoClient;
    assert_eq!(proccess_message(&client, "hi".to_string()).unwrap(), "echo: hi");
}

#[test]
fn builtin_send_message_tool() {
    let tool = Test;
    let def = tool.definition();
    assert_eq!(def.name, "send_message");
    assert_eq!(def.description, "Send message to target channel");
    let out = tool
        .call(OperationArgs { content: "hi".to_string(), target_channel_id: 3 })
        .unwrap();
    assert_eq!(out, "Succeccfly send message");
}
