use neko_ai::agent::Agent;
use neko_ai::completion::{ToolCall, ToolResult, WireMessage};
use neko_ai::engine::{FailureKind, TurnAction, TurnEngine, TurnOutcome};
use neko_ai::message::{Message, MessageRole};
use neko_ai::tools::{dispatch_tool_call, ToolDirective};

fn history(entries: &[(MessageRole, &str)]) -> Vec<Message> {
    entries.iter().map(|(r, c)| Message::new(*r, c.to_string())).collect()
}

fn wire_texts(msgs: &Vec<WireMessage>) -> Vec<String> {
    msgs.iter()
        .map(|m| match m {
            WireMessage::System { content } => format!("S:{}", content),
            WireMessage::User { content } => format!("U:{}", content),
            WireMessage::Assistant { content, tool_calls } => {
                format!("A:{}:{}", content, tool_calls.len())
            }
            WireMessage::Tool { call_id, content } => format!("T:{}:{}", call_id, content),
        })
        .collect()
}

#[test]
fn start_builds_context_in_order() {
    let h = history(&[(MessageRole::User, "hi"), (MessageRole::Assistant, "hello")]);
    let (engine, action) = TurnEngine::start("sys", "toolsys", &h, "question", false, 3);
    assert!(matches!(action, TurnAction::CallModel { use_tools: false }));
    assert_eq!(
        wire_texts(engine.current_messages()),
        vec!["S:sys", "U:hi", "A:hello:0", "U:question"]
    );
}

#[test]
fn tools_turn_uses_tool_prompt() {
    let h = history(&[]);
    let (engine, action) = TurnEngine::start("sys", "toolsys", &h, "q", true, 3);
    assert!(matches!(action, TurnAction::CallModel { use_tools: true }));
    assert_eq!(wire_texts(engine.current_messages()), vec!["S:toolsys", "U:q"]);
}

#[test]
fn final_reply_finishes_turn() {
    let (mut engine, _) = TurnEngine::start("sys", "toolsys", &history(&[]), "q", false, 3);
    let action = engine.on_model_final("answer".to_string());
    match action {
        TurnAction::Finish { outcome: TurnOutcome::Success { text, via_fallback } } => {
            assert_eq!(text, "answer");
            assert!(!via_fallback);
        }
        _ => panic!("expected a successful finish"),
    }
}

#[test]
fn unknown_tool_round_still_reaches_an_answer() {
    // The model asks for a tool that is not registered: the dispatcher
    // answers with a textual error payload, the round completes, and the
    // next model round produces the final answer.
    let (mut engine, _) = TurnEngine::start("sys", "toolsys", &history(&[]), "q", true, 3);
    let calls = vec![ToolCall {
        id: "call-1".to_string(),
        name: "foo".to_string(),
        arguments: "{}".to_string(),
    }];
    let action = engine.on_model_tools("".to_string(), calls);
    assert!(matches!(action, TurnAction::RunTools));

    let mut results: Vec<ToolResult> = Vec::new();
    for call in engine.pending_calls() {
        match dispatch_tool_call(call) {
            ToolDirective::Reply { result } => results.push(result),
            ToolDirective::FetchChannelList { .. } => panic!("foo is not the channel tool"),
        }
    }
    assert_eq!(results.len(), 1);
    assert_eq!(results[0].call_id, "call-1");
    assert_eq!(results[0].output, "{\"error\":\"unknown tool: foo\"}");

    let action = engine.on_tool_results(results);
    assert!(matches!(action, TurnAction::CallModel { use_tools: true }));
    let texts = wire_texts(engine.current_messages());
    assert_eq!(
        texts,
        vec![
            "S:toolsys",
            "U:q",
            "A::1",
            "T:call-1:{\"error\":\"unknown tool: foo\"}"
        ]
    );

    let action = engine.on_model_final("done".to_string());
    match action {
        TurnAction::Finish { outcome: TurnOutcome::Success { text, via_fallback } } => {
            assert_eq!(text, "done");
            assert!(!via_fallback);
        }
        _ => panic!("expected a successful finish"),
    }
}

#[test]
fn one_result_per_call_in_order() {
    let (mut engine, _) = TurnEngine::start("sys", "toolsys", &history(&[]), "q", true, 3);
    let calls = vec![
        ToolCall { id: "a".to_string(), name: "foo".to_string(), arguments: "{}".to_string() },
        ToolCall { id: "b".to_string(), name: "bar".to_string(), arguments: "{}".to_string() },
    ];
    engine.on_model_tools("plan".to_string(), calls);
    let mut results: Vec<ToolResult> = Vec::new();
    for call in engine.pending_calls() {
        match dispatch_tool_call(call) {
            ToolDirective::Reply { result } => results.push(result),
            ToolDirective::FetchChannelList { .. } => unreachable!(),
        }
    }
    assert_eq!(results.len(), 2);
    assert_eq!(results[0].call_id, "a");
    assert_eq!(results[1].call_id, "b");
    engine.on_tool_results(results);
    let texts = wire_texts(engine.current_messages());
    assert_eq!(texts[2], "A:plan:2");
    assert!(texts[3].starts_with("T:a:"));
    assert!(texts[4].starts_with("T:b:"));
}

#[test]
fn tool_loop_cap_ends_with_tool_loop_exceeded() {
    let (mut engine, _) = TurnEngine::start("sys", "toolsys", &history(&[]), "q", true, 2);
    let mut rounds = 0;
    loop {
        let calls = vec![ToolCall {
            id: format!("c{}", rounds),
            name: "foo".to_string(),
            arguments: "{}".to_string(),
        }];
        match engine.on_model_tools("".to_string(), calls) {
            TurnAction::RunTools => {
                rounds += 1;
                assert!(rounds <= 2, "the cap must stop the loop");
                let mut results: Vec<ToolResult> = Vec::new();
                for call in engine.pending_calls() {
                    match dispatch_tool_call(call) {
                        ToolDirective::Reply { result } => results.push(result),
                        ToolDirective::FetchChannelList { .. } => unreachable!(),
                    }
                }
                engine.on_tool_results(results);
            }
            TurnAction::Finish { outcome } => {
                match outcome {
                    TurnOutcome::Failure { kind, .. } => {
                        assert_eq!(kind, FailureKind::ToolLoopExceeded);
                    }
                    _ => panic!("expected a classified failure"),
                }
                break;
            }
            _ => panic!("unexpected action"),
        }
    }
    assert_eq!(rounds, 2);
}

#[test]
fn zero_round_cap_rejects_the_first_tool_request() {
    let (mut engine, _) = TurnEngine::start("sys", "toolsys", &history(&[]), "q", true, 0);
    let calls = vec![ToolCall {
        id: "c".to_string(),
        name: "foo".to_string(),
        arguments: "{}".to_string(),
    }];
    match engine.on_model_tools("".to_string(), calls) {
        TurnAction::Finish { outcome: TurnOutcome::Failure { kind, .. } } => {
            assert_eq!(kind, FailureKind::ToolLoopExceeded);
        }
        _ => panic!("a zero cap admits no tool round"),
    }
}

#[test]
fn primary_failure_triggers_exactly_one_fallback() {
    let (mut engine, _) = TurnEngine::start("sys", "toolsys", &history(&[]), "q", true, 3);
    let action = engine.on_model_failed("boom".to_string());
    match action {
        TurnAction::CallModel { use_tools } => assert!(!use_tools),
        _ => panic!("the first failure must start the fallback round"),
    }
    // The fallback context is history-less and tool-less.
    assert_eq!(wire_texts(engine.current_messages()), vec!["S:sys", "U:q"]);
    let action = engine.on_model_failed("boom again".to_string());
    match action {
        TurnAction::Finish { outcome: TurnOutcome::Failure { kind, detail } } => {
            assert_eq!(kind, FailureKind::UpstreamError);
            assert_eq!(detail, "boom again");
        }
        _ => panic!("the second failure must end the turn"),
    }
}

#[test]
fn fallback_success_updates_memory() {
    let mut agent = Agent::new("sys".to_string()).with_max_history(10);
    let (mut engine, _) = agent.begin_turn("u1", "the question", false);
    engine.on_model_failed("primary down".to_string());
    let action = engine.on_model_final("fallback answer".to_string());
    let outcome = match action {
        TurnAction::Finish { outcome } => outcome,
        _ => panic!("expected finish"),
    };
    match &outcome {
        TurnOutcome::Success { text, via_fallback } => {
            assert_eq!(text, "fallback answer");
            assert!(*via_fallback);
        }
        _ => panic!("expected success via fallback"),
    }
    agent.finish_turn("u1", &outcome);
    let hist = agent.get_history("u1").unwrap();
    let got: Vec<(MessageRole, String)> =
        hist.iter().map(|m| (m.role, m.content.clone())).collect();
    assert_eq!(
        got,
        vec![
            (MessageRole::User, "the question".to_string()),
            (MessageRole::Assistant, "fallback answer".to_string()),
        ]
    );
}

#[test]
fn failed_turn_keeps_only_user_message() {
    let mut agent = Agent::new("sys".to_string());
    let (mut engine, _) = agent.begin_turn("u1", "q", false);
    engine.on_model_failed("down".to_string());
    let action = engine.on_model_failed("still down".to_string());
    let outcome = match action {
        TurnAction::Finish { outcome } => outcome,
        _ => panic!("expected finish"),
    };
    agent.finish_turn("u1", &outcome);
    let hist = agent.get_history("u1").unwrap();
    assert_eq!(hist.len(), 1);
    assert_eq!(hist[0].content, "q");
}

#[test]
fn two_users_do_not_share_history() {
    let mut agent = Agent::new("sys".to_string());
    let (mut e1, _) = agent.begin_turn("U1", "hello from one", false);
    let (mut e2, _) = agent.begin_turn("U2", "hello from two", false);
    let o1 = match e1.on_model_final("answer one".to_string()) {
        TurnAction::Finish { outcome } => outcome,
        _ => panic!(),
    };
    let o2 = match e2.on_model_final("answer two".to_string()) {
        TurnAction::Finish { outcome } => outcome,
        _ => panic!(),
    };
    agent.finish_turn("U1", &o1);
    agent.finish_turn("U2", &o2);
    let h1: Vec<String> =
        agent.get_history("U1").unwrap().iter().map(|m| m.content.clone()).collect();
    let h2: Vec<String> =
        agent.get_history("U2").unwrap().iter().map(|m| m.content.clone()).collect();
    assert_eq!(h1, vec!["hello from one".to_string(), "answer one".to_string()]);
    assert_eq!(h2, vec!["hello from two".to_string(), "answer two".to_string()]);
}
