use claude_core::conversation::{
    compact_summary_record, entity_to_message, history_from_entities, last_message_id,
    next_order_index, recorded_message, stored_message,
};
use claude_core::{ConversationEngine, Message, MessageEntity, Role};

fn row(id: &str, role: &str, content: &str, order: i32) -> MessageEntity {
    stored_message(id, "s", None, Role::from_name(role), content, None, 1_000 + order as i64, order)
}

fn summary(id: &str, content: &str, order: i32) -> MessageEntity {
    compact_summary_record(id, "s", None, content, "b", 5, order)
}

#[test]
fn stored_messages_read_back() {
    let e = stored_message("m1", "s1", Some("p0".into()), Role::Assistant, "hi", Some("hmm"), 77, 3);
    assert_eq!(e.role, "assistant");
    assert_eq!(e.parent_uuid.as_deref(), Some("p0"));
    assert!(!e.is_compact_summary);
    let m = entity_to_message(&e);
    assert_eq!(m.role, Role::Assistant);
    assert_eq!(m.content, "hi");
    assert_eq!(m.thinking.as_deref(), Some("hmm"));
    assert_eq!(m.id.as_deref(), Some("m1"));
    assert_eq!(m.timestamp, 77);
    let mut odd = row("m2", "user", "x", 0);
    odd.role = "moderator".into();
    assert_eq!(entity_to_message(&odd).role, Role::User);
}

#[test]
fn summaries_are_marked() {
    let s = compact_summary_record("c1", "s1", None, "sum", "m9", 10, 4);
    assert!(s.is_compact_summary);
    assert_eq!(s.role, "system");
    assert_eq!(s.compact_boundary.as_deref(), Some("m9"));
    assert_eq!(s.order_index, 4);
}

#[test]
fn context_without_summaries_is_the_history() {
    let e = ConversationEngine::new();
    assert_eq!(e.context_limit(), 100);
    let rows = vec![row("a", "user", "q", 0), row("b", "assistant", "r", 1)];
    let ctx = e.build_context(&vec![], &rows);
    assert_eq!(ctx.len(), 2);
    assert_eq!(ctx[1].role, Role::Assistant);
    assert_eq!(history_from_entities(&rows).len(), 2);
}

#[test]
fn context_with_summaries_keeps_recent_messages_after_the_last_one() {
    let e = ConversationEngine::default().with_max_context(2);
    assert_eq!(e.context_limit(), 2);
    let sums = vec![summary("s1", "first", 1), summary("s2", "second", 4)];
    let rows: Vec<MessageEntity> = (0..8).map(|i| row(&format!("m{}", i), "user", &format!("t{}", i), i)).collect();
    let ctx = e.build_context(&sums, &rows);
    let contents: Vec<&str> = ctx.iter().map(|m| m.content.as_str()).collect();
    assert_eq!(contents, vec!["first", "second", "t6", "t7"]);
    assert_eq!(ctx[0].role, Role::System);
    assert_eq!(ctx[1].id.as_deref(), Some("s2"));
    let few = ConversationEngine::new().build_context(&sums, &rows);
    assert_eq!(few.len(), 2 + 3);
}

#[test]
fn api_messages_put_the_prompt_first() {
    let e = ConversationEngine::new();
    let ctx = vec![Message::user("a"), Message::assistant("b")];
    let with = e.build_api_messages(&ctx, Some("be brief")).unwrap();
    assert_eq!(with.len(), 3);
    assert_eq!(with[0].role, Role::System);
    assert_eq!(with[0].content, "be brief");
    assert_eq!(with[2].content, "b");
    let without = e.build_api_messages(&ctx, None).unwrap();
    assert_eq!(without.len(), 2);
    assert_eq!(without[0].content, "a");
}

#[test]
fn ids_and_positions() {
    let mut m = Message::user("x");
    m.id = Some("last".into());
    assert_eq!(last_message_id(&[Message::user("a"), m]).as_deref(), Some("last"));
    assert_eq!(last_message_id(&[]), None);
    assert_eq!(next_order_index(-1), 0);
    assert_eq!(next_order_index(41), 42);
    let r = recorded_message(Role::Assistant, "ok", None, "id7", 9);
    assert_eq!(r.id.as_deref(), Some("id7"));
    assert_eq!(r.timestamp, 9);
    assert!(r.thinking.is_none());
}
