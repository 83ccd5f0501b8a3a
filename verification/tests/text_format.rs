use neko_ai::context::{
    format_timestamp, AgentContext, ContextBuilder, ConversationContext, GuildContext,
    MessageReference, Timestamp,
};
use neko_ai::handler::{byte_chunks, compose_user_prompt, format_metadata, should_handle};
use neko_ai::prompts::{compose_system_prompt, trim_text};
use neko_ai::text::{join_lines, parse_u64, u64_to_string};
use neko_ai::user::UserInfo;

#[test]
fn decimal_rendering() {
    assert_eq!(u64_to_string(0), "0");
    assert_eq!(u64_to_string(9), "9");
    assert_eq!(u64_to_string(10), "10");
    assert_eq!(u64_to_string(12345), "12345");
    assert_eq!(u64_to_string(u64::MAX), "18446744073709551615");
}

#[test]
fn decimal_parsing() {
    assert_eq!(parse_u64("0"), Some(0));
    assert_eq!(parse_u64("42"), Some(42));
    assert_eq!(parse_u64("18446744073709551615"), Some(u64::MAX));
    assert_eq!(parse_u64("18446744073709551616"), None);
    assert_eq!(parse_u64(""), None);
    assert_eq!(parse_u64("1x2"), None);
    assert_eq!(parse_u64("-3"), None);
}

#[test]
fn joining_lines() {
    let lines = vec!["a".to_string(), "b".to_string(), "c".to_string()];
    assert_eq!(join_lines(&lines, "\n"), "a\nb\nc");
    assert_eq!(join_lines(&vec![], "\n"), "");
    assert_eq!(join_lines(&vec!["only".to_string()], "\n"), "only");
}

#[test]
fn trimming() {
    assert_eq!(trim_text("  hello world \n"), "hello world");
    assert_eq!(trim_text("\t\n  "), "");
    assert_eq!(trim_text("x"), "x");
    assert_eq!(trim_text("\u{3000}全角\u{3000}"), "全角");
}

#[test]
fn system_prompt_composition() {
    assert_eq!(compose_system_prompt(None), "You are a helpful assistant.");
    assert_eq!(compose_system_prompt(Some("   \n".to_string())), "You are a helpful assistant.");
    let composed = compose_system_prompt(Some("  Be a cat.  ".to_string()));
    assert!(composed.starts_with("Be a cat.# format of metadata\n<metadata>\n"));
    assert!(composed.ends_with("</metadata>\n\n"));
}

#[test]
fn timestamp_zero_padding() {
    let t = Timestamp { year: 2024, month: 3, day: 7, hour: 9, minute: 5, second: 0 };
    assert_eq!(format_timestamp(&t), "2024-03-07 09:05:00");
    let t = Timestamp { year: 80, month: 12, day: 31, hour: 23, minute: 59, second: 59 };
    assert_eq!(format_timestamp(&t), "0080-12-31 23:59:59");
}

fn sample_conversation(reference: Option<MessageReference>) -> ConversationContext {
    ConversationContext {
        channel_id: 300,
        guild_id: Some(100),
        user_id: 200,
        user_info: UserInfo {
            id: 200,
            username: "neko".to_string(),
            nickname: None,
            avatar_url: None,
            is_bot: false,
        }
        .with_nickname("にゃん".to_string()),
        timestamp: Timestamp { year: 2024, month: 1, day: 2, hour: 3, minute: 4, second: 5 },
        message_reference: reference,
    }
}

#[test]
fn context_prompt_with_guild() {
    let ctx = AgentContext::new(
        sample_conversation(None),
        Some(GuildContext {
            guild_id: 100,
            guild_name: "Cat Cafe".to_string(),
            member_count: 12,
            channel_name: Some("lounge".to_string()),
        }),
    );
    let text = ctx.format_context_for_prompt();
    assert_eq!(
        text,
        "現在時刻: 2024-01-02 03:04:05\nサーバー: Cat Cafe\nチャンネル: #lounge\nメンバー数: 12人\nユーザー: neko (ID: 200)\nニックネーム: にゃん"
    );
}

#[test]
fn context_prompt_for_dm_truncates_reference() {
    let long = "x".repeat(150);
    let ctx = AgentContext::new(
        sample_conversation(Some(MessageReference {
            message_id: 1,
            author_name: "mika".to_string(),
            content: long.clone(),
        })),
        None,
    );
    let text = ctx.format_context_for_prompt();
    let expected_excerpt: String = long.chars().take(100).collect();
    assert!(text.contains("\nDMでの会話\n"));
    assert!(text.contains(&format!("返信先メッセージ: mikaさん「{}...」", expected_excerpt)));
}

#[test]
fn metadata_round_trip() {
    let mut ctx = AgentContext::new(sample_conversation(None), None);
    assert_eq!(ctx.get_metadata("k"), None);
    ctx.set_metadata("k".to_string(), "v1".to_string());
    assert_eq!(ctx.get_metadata("k"), Some("v1".to_string()));
    ctx.set_metadata("k".to_string(), "v2".to_string());
    assert_eq!(ctx.get_metadata("k"), Some("v2".to_string()));
    assert!(!ctx.is_dm());
    assert_eq!(ctx.get_channel_id(), 300);
    assert_eq!(ctx.get_user_id(), 200);
}

#[test]
fn context_builder_collects_pairs() {
    let pairs = ContextBuilder::new()
        .with_metadata("a".to_string(), "1".to_string())
        .with_metadata("b".to_string(), "2".to_string())
        .with_metadata("a".to_string(), "3".to_string())
        .build();
    let got: Vec<(String, String)> =
        pairs.into_iter().map(|e| (e.key, e.value)).collect();
    assert_eq!(
        got,
        vec![("a".to_string(), "3".to_string()), ("b".to_string(), "2".to_string())]
    );
}

#[test]
fn handler_guards() {
    assert!(should_handle(false, "hello", 5, None));
    assert!(!should_handle(true, "hello", 5, None));
    assert!(!should_handle(false, "w!ping", 5, None));
    assert!(should_handle(false, "hello", 5, Some(5)));
    assert!(!should_handle(false, "hello", 6, Some(5)));
}

#[test]
fn metadata_block_format() {
    let text = format_metadata("Cat Cafe", Some(100), "General", "lounge", 300, "neko", 200);
    assert_eq!(
        text,
        "<metadata>\nGuild: Cat Cafe (100)\nChannel: General > lounge (300)\nUser: neko (200)\n</metadata>"
    );
    let dm = format_metadata("DM", None, "None", "300", 300, "neko", 200);
    assert!(dm.contains("Guild: DM (0)"));
}

#[test]
fn user_prompt_wrapping() {
    let p = compose_user_prompt("<metadata>m</metadata>", "hi there");
    assert_eq!(p, "<metadata>m</metadata>\n\n<user_input>hi there</user_input>");
}

#[test]
fn chunking_long_replies() {
    let data: Vec<u8> = (0u16..5).map(|i| i as u8).collect();
    let chunks = byte_chunks(&data, 2);
    let got: Vec<Vec<u8>> = chunks;
    assert_eq!(got, vec![vec![0, 1], vec![2, 3], vec![4]]);
    let exact = byte_chunks(&[1u8, 2, 3, 4], 2);
    assert_eq!(exact, vec![vec![1, 2], vec![3, 4]]);
    let empty = byte_chunks(&[], 2);
    assert!(empty.is_empty());
}
