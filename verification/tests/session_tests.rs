use claude_core::session::default_model_name;
use claude_core::{Message, Session, SessionConfig, SessionManager};

fn is_uuid(s: &str) -> bool {
    s.len() == 36
        && s.chars().enumerate().all(|(i, c)| {
            if [8, 13, 18, 23].contains(&i) {
                c == '-'
            } else {
                c.is_ascii_hexdigit() && !c.is_ascii_uppercase()
            }
        })
}

#[test]
fn default_session_settings() {
    let c = SessionConfig::default();
    assert_eq!(c.api_key, "");
    assert_eq!(c.model, "deepseek-chat");
    assert_eq!(default_model_name(), "deepseek-chat");
    assert_eq!(c.max_tokens, 4096);
    assert!(c.provider.is_none() && c.base_url.is_none());
    assert!(c.thinking_enabled.is_none() && c.working_directory.is_none());
    let mut d = SessionConfig::default();
    d.provider = Some("deepseek".into());
    let e = d.clone();
    assert_eq!(e.provider.as_deref(), Some("deepseek"));
}

#[test]
fn manager_creates_finds_and_removes() {
    let mut m = SessionManager::new();
    let a = m.create_session(SessionConfig::default());
    let b = m.create_session(SessionConfig::default());
    assert!(is_uuid(&a) && is_uuid(&b));
    assert_ne!(a, b);
    assert_eq!(m.position(&a), Some(0));
    assert_eq!(m.position(&b), Some(1));
    assert_eq!(m.get_session(&b).unwrap().id, b);
    assert!(m.get_session(&b).unwrap().messages.is_empty());
    assert!(m.add_message(&a, Message::user("hello")));
    assert!(!m.add_message("missing", Message::user("x")));
    assert_eq!(m.get_session(&a).unwrap().messages[0].content, "hello");
    assert!(m.get_session(&b).unwrap().messages.is_empty());
    assert!(m.remove_session(&a));
    assert!(!m.remove_session(&a));
    assert!(m.get_session(&a).is_none());
    assert_eq!(m.position(&b), Some(0));
    m.clear();
    assert!(m.get_session(&b).is_none());
    assert!(SessionManager::default().get_session("x").is_none());
}

#[test]
fn sessions_keep_their_messages() {
    let mut s = Session::new("s1".to_string(), SessionConfig::default());
    assert!(s.add_message(Message::user("a")).is_ok());
    assert!(s.add_message(Message::assistant("b")).is_ok());
    assert_eq!(s.messages.len(), 2);
    assert_eq!(s.messages[1].content, "b");
    let mut m = SessionManager::new();
    m.insert(s);
    assert_eq!(m.get_session("s1").unwrap().messages.len(), 2);
}

#[test]
fn fresh_sessions_get_random_ids() {
    let a = Session::with_new_id(SessionConfig::default());
    let b = Session::with_new_id(SessionConfig::default());
    assert!(is_uuid(&a.id) && is_uuid(&b.id));
    assert_ne!(a.id, b.id);
    assert!(a.messages.is_empty());
}
