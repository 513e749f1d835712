use claude_core::{ContextManager, ConversationEngine, Message, Role};

fn with_id(mut m: Message, id: &str) -> Message {
    m.id = Some(id.to_string());
    m
}

#[test]
fn token_estimates_count_content_and_reasoning() {
    let cm = ContextManager::new();
    let mut a = Message::assistant("abcdefgh");
    a.thinking = Some("abcd".into());
    assert_eq!(cm.estimate_tokens(&[a, Message::user("ééé")]), 2 + 1 + 1);
    assert_eq!(cm.estimate_tokens(&[]), 0);
}

#[test]
fn boundary_after_first_assistant_reaching_half() {
    let cm = ContextManager::default();
    let msgs = vec![
        Message::user("aaaaaaaaaaaaaaaa"),
        Message::assistant("bbbb"),
        Message::user("c"),
        Message::assistant("d"),
    ];
    assert_eq!(cm.find_compact_boundary(&msgs, 8), 2);
    assert_eq!(cm.find_compact_boundary(&msgs, 1000), 1);
    assert_eq!(cm.find_compact_boundary(&msgs[..3], 1000), 0);
}

#[test]
fn summary_text_is_exact() {
    let cm = ContextManager::new();
    assert_eq!(cm.generate_compact_summary(&[]), "No previous context.");
    let msgs = vec![
        Message::user("first question"),
        Message::assistant("answer"),
        Message::tool_use("grep", "c", claude_core::JsonValue::Null),
        Message::user("last question"),
    ];
    assert_eq!(
        cm.generate_compact_summary(&msgs),
        "[Conversation Summary]\n- 2 user messages, 1 assistant responses, 1 tool uses\n- First topic: first question\n- Last topic: last question\n[End Summary - Continue from here]\n"
    );
    let long = "x".repeat(250);
    let s = cm.generate_compact_summary(&[Message::user(&long)]);
    assert!(s.contains(&format!("- First topic: {}\n", "x".repeat(200))));
}

#[test]
fn stats_partition_the_messages() {
    let cm = ContextManager::new();
    let msgs = vec![
        Message::system("sys"),
        Message::user("abcdefgh"),
        Message::assistant("abcd"),
        Message::tool_use("t", "c", claude_core::JsonValue::Null),
        Message::tool_result("c", "out!"),
    ];
    let s = cm.get_conversation_stats(&msgs);
    assert_eq!(s.total_messages, 5);
    assert_eq!(
        (s.user_messages, s.assistant_messages, s.system_messages, s.tool_uses, s.tool_results),
        (1, 1, 1, 1, 1)
    );
    assert_eq!(s.total_tokens, 2 + 1 + 1);
    assert_eq!(s.compact_summaries, 0);
}

#[test]
fn windows_and_prompts() {
    let cm = ContextManager::new().with_conversation_engine(ConversationEngine::new().with_max_context(5));
    assert_eq!(cm.conversation_engine().context_limit(), 5);
    let msgs: Vec<Message> = (0..5).map(|i| Message::user(&i.to_string())).collect();
    let w = cm.get_context_window(msgs.clone(), Some(2));
    assert_eq!(w.iter().map(|m| m.content.as_str()).collect::<Vec<_>>(), vec!["3", "4"]);
    assert_eq!(cm.get_context_window(msgs.clone(), Some(9)).len(), 5);
    assert_eq!(cm.get_context_window(msgs, None).len(), 5);
    assert_eq!(
        cm.build_system_prompt(None, 42),
        "You are a helpful AI assistant.\n\nCurrent conversation context contains 42 tokens.\nBe helpful, harmless, and honest in all interactions.\n"
    );
    assert_eq!(
        cm.build_system_prompt(Some("Answer in French."), 0),
        "You are a helpful AI assistant.\n\nAnswer in French.\n\nCurrent conversation context contains 0 tokens.\nBe helpful, harmless, and honest in all interactions.\n"
    );
}

#[test]
fn compaction_plans() {
    let cm = ContextManager::new();
    let msgs = vec![
        with_id(Message::user("aaaaaaaaaaaaaaaa"), "m0"),
        with_id(Message::assistant("bbbb"), "m1"),
        with_id(Message::user("cccc"), "m2"),
        Message::assistant("dddd"),
    ];
    assert!(cm.plan_compaction(&msgs, 100).is_none());
    let p = cm.plan_compaction(&msgs, 6).unwrap();
    assert_eq!(p.boundary, 2);
    assert_eq!(p.boundary_message_id, "m2");
    assert_eq!(p.summary, cm.generate_compact_summary(&msgs[..2]));
    assert_eq!(msgs[0].role, Role::User);
}

#[test]
fn token_estimates_add_up() {
    let cm = ContextManager::new();
    let a = vec![Message::user("abcdefgh"), Message::assistant("abcdefghijkl")];
    let b = vec![Message::system("abcd"), Message::user("xyz")];
    let mut ab = a.clone();
    ab.extend(b.iter().cloned());
    assert_eq!(cm.estimate_tokens(&ab), cm.estimate_tokens(&a) + cm.estimate_tokens(&b));
}
