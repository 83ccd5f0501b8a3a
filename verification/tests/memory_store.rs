use neko_ai::memory::ConversationMemory;
use neko_ai::message::{Message, MessageRole};
use neko_ai::store::ConversationStore;

fn roles_and_texts(msgs: &Vec<Message>) -> Vec<(MessageRole, String)> {
    msgs.iter().map(|m| (m.role, m.content.clone())).collect()
}

#[test]
fn history_never_exceeds_capacity() {
    let mut m = ConversationMemory::new(3);
    for i in 0..10 {
        m.add_message(Message::new(MessageRole::User, format!("m{}", i)));
        assert!(m.len() <= 3);
    }
    let texts: Vec<String> = m.get_messages().iter().map(|m| m.content.clone()).collect();
    assert_eq!(texts, vec!["m7".to_string(), "m8".to_string(), "m9".to_string()]);
}

#[test]
fn fifo_eviction_scenario() {
    let mut m = ConversationMemory::new(2);
    m.add_message(Message::new(MessageRole::User, "a".to_string()));
    m.add_message(Message::new(MessageRole::Assistant, "b".to_string()));
    m.add_message(Message::new(MessageRole::User, "c".to_string()));
    let got = roles_and_texts(m.get_messages());
    assert_eq!(
        got,
        vec![
            (MessageRole::Assistant, "b".to_string()),
            (MessageRole::User, "c".to_string()),
        ]
    );
}

#[test]
fn zero_capacity_retains_nothing() {
    let mut m = ConversationMemory::new(0);
    m.add_message(Message::new(MessageRole::User, "x".to_string()));
    assert_eq!(m.len(), 0);
}

#[test]
fn clear_empties_but_keeps_capacity() {
    let mut m = ConversationMemory::new(2);
    m.add_message(Message::new(MessageRole::User, "a".to_string()));
    m.clear();
    assert_eq!(m.len(), 0);
    m.add_message(Message::new(MessageRole::User, "b".to_string()));
    assert_eq!(m.len(), 1);
}

#[test]
fn get_or_create_is_idempotent() {
    let mut s = ConversationStore::new();
    s.get_or_create("alice", 5);
    assert_eq!(s.active_count(), 1);
    s.get_or_create("alice", 5);
    s.get_or_create("alice", 9);
    assert_eq!(s.active_count(), 1);
    s.get_or_create("bob", 5);
    assert_eq!(s.active_count(), 2);
}

#[test]
fn append_only_touches_its_user() {
    let mut s = ConversationStore::new();
    s.get_or_create("u1", 5);
    s.get_or_create("u2", 5);
    s.append("u1", Message::new(MessageRole::User, "hello".to_string()));
    assert_eq!(s.snapshot("u1").unwrap().len(), 1);
    assert_eq!(s.snapshot("u2").unwrap().len(), 0);
}

#[test]
fn append_to_unknown_user_is_noop() {
    let mut s = ConversationStore::new();
    s.append("ghost", Message::new(MessageRole::User, "hi".to_string()));
    assert_eq!(s.active_count(), 0);
    assert!(s.snapshot("ghost").is_none());
}

#[test]
fn clear_unknown_user_is_noop() {
    let mut s = ConversationStore::new();
    s.get_or_create("known", 5);
    s.clear("unknown");
    assert_eq!(s.active_count(), 1);
}

#[test]
fn clear_known_user_keeps_entry() {
    let mut s = ConversationStore::new();
    s.get_or_create("u", 5);
    s.append("u", Message::new(MessageRole::User, "one".to_string()));
    s.clear("u");
    assert_eq!(s.snapshot("u").unwrap().len(), 0);
    assert_eq!(s.active_count(), 1);
}

#[test]
fn clear_all_removes_everything() {
    let mut s = ConversationStore::new();
    s.get_or_create("a", 5);
    s.get_or_create("b", 5);
    s.clear_all();
    assert_eq!(s.active_count(), 0);
    assert!(s.snapshot("a").is_none());
}
