use claude_core::json::JsonValue;
use claude_core::{Message, MessageList, Role};

#[test]
fn test_message_creation() {
    let user_msg = Message::user("Hello");
    assert_eq!(user_msg.role, Role::User);
    assert_eq!(user_msg.content, "Hello");

    let assistant_msg = Message::assistant("Hi there");
    assert_eq!(assistant_msg.role, Role::Assistant);

    let system_msg = Message::system("You are helpful");
    assert_eq!(system_msg.role, Role::System);
}

#[test]
fn test_tool_messages() {
    let input = JsonValue::Object(vec![(
        "path".to_string(),
        JsonValue::Str("/test.txt".to_string()),
    )]);
    let tool_use = Message::tool_use("file_read", "call_123", input);
    assert_eq!(tool_use.role, Role::ToolUse);
    assert_eq!(tool_use.tool_name.as_ref().unwrap(), "file_read");

    let tool_result = Message::tool_result("call_123", "File contents here");
    assert_eq!(tool_result.role, Role::ToolResult);
    assert_eq!(tool_result.content, "File contents here");
}

#[test]
fn role_names_are_the_wire_names() {
    assert_eq!(Role::User.as_str(), "user");
    assert_eq!(Role::Assistant.as_str(), "assistant");
    assert_eq!(Role::System.as_str(), "system");
    assert_eq!(Role::ToolUse.as_str(), "tool_use");
    assert_eq!(Role::ToolResult.as_str(), "tool_result");
}

#[test]
fn role_names_read_back() {
    for r in [Role::User, Role::Assistant, Role::System, Role::ToolUse, Role::ToolResult] {
        assert_eq!(Role::from_name(r.as_str()), r);
    }
    assert_eq!(Role::from_name("moderator"), Role::User);
}

#[test]
fn plain_messages_have_no_extras() {
    let m = Message::user("x");
    assert!(m.name.is_none());
    assert!(m.tool_call_id.is_none());
    assert!(m.tool_input.is_none());
    assert!(m.thinking.is_none());
    assert!(m.id.is_none());
    let t = Message::tool_use("grep", "c1", JsonValue::Null);
    assert_eq!(t.content, "");
    assert_eq!(t.tool_call_id.as_deref(), Some("c1"));
}

#[test]
fn message_clone_keeps_fields() {
    let mut m = Message::assistant("answer");
    m.thinking = Some("because".to_string());
    m.id = Some("id-1".to_string());
    let c = m.clone();
    assert_eq!(c.content, "answer");
    assert_eq!(c.thinking.as_deref(), Some("because"));
    assert_eq!(c.id.as_deref(), Some("id-1"));
    assert_eq!(c.timestamp, m.timestamp);
}

#[test]
fn message_list_from_vec() {
    let list = MessageList::from(vec![Message::user("a"), Message::user("b")]);
    assert_eq!(list.messages.len(), 2);
    assert!(MessageList::new().messages.is_empty());
    assert!(MessageList::with_capacity(8).messages.is_empty());
    let all: Vec<Message> = list.into_iter().collect();
    assert_eq!(all[1].content, "b");
}
