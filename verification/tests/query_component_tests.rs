use claude_core::components::{
    ApiKeyProvider, AuthProvider, OAuthProvider, PermissionContext, PermissionMode, Skill, VimMode, VimState,
};
use claude_core::query::{assistant_reply, no_provider_error, reply_json};
use claude_core::text::first_position;
use claude_core::{ClaudeError, DatabaseSchema, Message, QueryEngine, Role};

#[test]
fn query_messages_in_order() {
    let q = QueryEngine::new();
    let history = vec![Message::user("a"), Message::assistant("b")];
    let msgs = q.context_messages(&history, "c", Some("sys"));
    let view: Vec<(Role, &str)> = msgs.iter().map(|m| (m.role, m.content.as_str())).collect();
    assert_eq!(view, vec![(Role::System, "sys"), (Role::User, "a"), (Role::Assistant, "b"), (Role::User, "c")]);
    let plain = QueryEngine::default().context_messages(&[], "only", None);
    assert_eq!(plain.len(), 1);
    assert_eq!(plain[0].content, "only");
}

#[test]
fn missing_provider_error() {
    match no_provider_error() {
        ClaudeError::ConfigError { message } => assert_eq!(message, "No provider configured"),
        other => panic!("unexpected {:?}", other),
    }
}

#[test]
fn auth_providers() {
    let k = ApiKeyProvider::new("sk-x");
    assert_eq!(k.authenticate().ok().as_deref(), Some("sk-x"));
    assert_eq!(k.refresh("old").ok().as_deref(), Some("sk-x"));
    let o = OAuthProvider::new("client", "https://auth");
    assert_eq!(o.authenticate().ok().as_deref(), Some(""));
    assert_eq!(o.refresh("tok").ok().as_deref(), Some("tok"));
}

#[test]
fn component_defaults() {
    let p = PermissionContext::default();
    assert!(matches!(p.mode, PermissionMode::Default));
    let v = VimState::new();
    assert!(matches!(v.mode, VimMode::Normal));
    let s = Skill::new("n", "d", "c");
    assert_eq!((s.name.as_str(), s.description.as_str(), s.content.as_str()), ("n", "d", "c"));
    assert!(DatabaseSchema::create_tables_sql().contains("CREATE TABLE IF NOT EXISTS messages"));
}

#[test]
fn replies_become_assistant_messages() {
    let plain = assistant_reply("Hello there");
    assert_eq!(plain.role, Role::Assistant);
    assert_eq!(plain.content, "Hello there");
    assert!(plain.thinking.is_none());
    let framed = assistant_reply(r#"{"content":"Hi","thinking":"why not"}"#);
    assert_eq!(framed.content, "Hi");
    assert_eq!(framed.thinking.as_deref(), Some("why not"));
    let err = r#"{"error":"API error: deepseek - HTTP 500","error_type":"api_error"}"#;
    let e = assistant_reply(err);
    assert_eq!(e.content, err);
    assert!(e.thinking.is_none());
    let odd = assistant_reply(r#"{"content":5,"thinking":["x"]}"#);
    assert_eq!(odd.content, r#"{"content":5,"thinking":["x"]}"#);
    assert!(odd.thinking.is_none());
}

#[test]
fn registry_lookup_finds_the_first_match() {
    let names = ["deepseek", "siliconflow", "deepseek"];
    assert_eq!(first_position(&names, "deepseek"), Some(0));
    assert_eq!(first_position(&names, "siliconflow"), Some(1));
    assert_eq!(first_position(&names, "openrouter"), None);
    assert_eq!(first_position(&[], "x"), None);
}

#[test]
fn replies_as_json_objects() {
    use_reply("Hi", None, r#"{"content":"Hi"}"#);
    use_reply("a\nb", Some("t\"x"), r#"{"content":"a\nb","thinking":"t\"x"}"#);
    let v: serde_json::Value = serde_json::from_str(&reply_json("tab\tend", Some("why"))).unwrap();
    assert_eq!(v["content"], "tab\tend");
    assert_eq!(v["thinking"], "why");
}

fn use_reply(content: &str, thinking: Option<&str>, expected: &str) {
    assert_eq!(reply_json(content, thinking), expected);
}
