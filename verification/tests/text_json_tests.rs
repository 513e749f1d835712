use claude_core::conversation::entity_to_message;
use claude_core::error::make_error_json;
use claude_core::json::JsonValue;
use claude_core::text::{
    bool_to_string, byte_len, chars_of, has_prefix, i32_to_string, parse_bool, str_eq,
    strip_prefix, take_chars, usize_to_string,
};
use claude_core::{ClaudeError, ConfigManager, GlobalConfig, MessageEntity, ProjectConfig};

fn stored(tool_input: Option<&str>) -> MessageEntity {
    MessageEntity {
        id: "m1".to_string(),
        session_id: "s1".to_string(),
        parent_uuid: None,
        role: "tool_use".to_string(),
        content: String::new(),
        name: None,
        tool_call_id: Some("c1".to_string()),
        tool_name: Some("grep".to_string()),
        tool_input: tool_input.map(|s| s.to_string()),
        thinking: None,
        thinking_signature: None,
        timestamp: 0,
        is_compact_summary: false,
        compact_boundary: None,
        order_index: 0,
    }
}

fn parsed(text: &str) -> Option<JsonValue> {
    entity_to_message(&stored(Some(text))).tool_input
}

#[test]
fn decimal_texts() {
    assert_eq!(usize_to_string(0), "0");
    assert_eq!(usize_to_string(4096), "4096");
    assert_eq!(i32_to_string(-17), "-17");
    assert_eq!(i32_to_string(i32::MIN), "-2147483648");
    assert_eq!(i32_to_string(i32::MAX), "2147483647");
    assert_eq!(bool_to_string(true), "true");
    assert_eq!(bool_to_string(false), "false");
    let e = ClaudeError::RateLimitError { provider: "p".into(), retry_after: u64::MAX };
    assert_eq!(e.message_text(), "Rate limit error: p - retry after 18446744073709551615s");
    let e = ClaudeError::RateLimitError { provider: "p".into(), retry_after: 0 };
    assert_eq!(e.message_text(), "Rate limit error: p - retry after 0s");
}

#[test]
fn stored_numbers_follow_std_parsing() {
    let count = |t: &str| {
        GlobalConfig::from_stored(None, None, None, None, Some(t.to_string()), None).num_startups
    };
    assert_eq!(count("42"), 42);
    assert_eq!(count("+7"), 7);
    assert_eq!(count("-2147483648"), i32::MIN);
    assert_eq!(count("2147483648"), 0);
    assert_eq!(count(""), 0);
    assert_eq!(count("1.5"), 0);
    let limit = |t: &str| {
        ConfigManager::session_config_from_stored(None, None, Some(t.to_string())).max_tokens
    };
    assert_eq!(limit("8192"), 8192);
    assert_eq!(limit("-1"), 4096);
    assert_eq!(limit("lots"), 4096);
    assert_eq!(parse_bool("true"), Some(true));
    assert_eq!(parse_bool("false"), Some(false));
    assert_eq!(parse_bool("True"), None);
}

#[test]
fn prefixes_and_slices() {
    assert!(has_prefix("data: x", "data: "));
    assert!(!has_prefix("dat", "data"));
    assert_eq!(strip_prefix("event: ping", "event: "), Some("ping"));
    assert_eq!(strip_prefix("ping", "event: "), None);
    assert!(str_eq("héllo", "héllo"));
    assert!(!str_eq("a", "b"));
    assert_eq!(take_chars("héllo", 2), "hé");
    assert_eq!(take_chars("ab", 10), "ab");
    assert_eq!(byte_len("héllo"), 6);
    assert_eq!(chars_of("añb"), vec!['a', 'ñ', 'b']);
}

#[test]
fn error_json_escapes_quotes_and_backslashes() {
    assert_eq!(make_error_json("plain"), "{\"error\":\"plain\"}");
    assert_eq!(make_error_json("say \"hi\""), "{\"error\":\"say \\\"hi\\\"\"}");
    assert_eq!(make_error_json("a\\b"), "{\"error\":\"a\\\\b\"}");
    assert_eq!(make_error_json(""), "{\"error\":\"\"}");
    assert_eq!(make_error_json("a\nb"), "{\"error\":\"a\\nb\"}");
    assert_eq!(make_error_json("\u{1}\u{1f}"), "{\"error\":\"\\u0001\\u001f\"}");
}

#[test]
fn json_parse_and_lookup() {
    let v = parsed(r#"{"choices":[{"delta":{"content":"hi"}}],"n":1.5}"#).unwrap();
    let first = v.get("choices").unwrap().first_element().unwrap();
    let content = first.get("delta").unwrap().get("content").unwrap();
    assert_eq!(content.as_str().map(|s| s.as_str()), Some("hi"));
    match v.get("n") {
        Some(JsonValue::Number(t)) => assert_eq!(t, "1.5"),
        other => panic!("unexpected {:?}", other),
    }
    assert!(v.get("missing").is_none());
    assert!(parsed("not json").is_none());
    assert!(parsed("{\"a\":1} trailing").is_none());
    assert!(JsonValue::Null.get("a").is_none());
    assert!(entity_to_message(&stored(None)).tool_input.is_none());
}

#[test]
fn json_string_lists() {
    let v = parsed(r#"["a","b"]"#).unwrap();
    assert_eq!(v.string_list(), Some(vec!["a".to_string(), "b".to_string()]));
    let w = parsed(r#"["a",1]"#).unwrap();
    assert_eq!(w.string_list(), None);
    assert_eq!(parsed("{}").unwrap().string_list(), None);
    assert!(parsed("[]").unwrap().first_element().is_none());
    let p = ProjectConfig::from_stored(Some(r#"["read","write"]"#.to_string()), Some("oops".to_string()), None);
    assert_eq!(p.allowed_tools, vec!["read".to_string(), "write".to_string()]);
    assert!(p.mcp_context_uris.is_empty());
}

#[test]
fn json_clone_is_deep() {
    let v = parsed(r#"{"a":[1,{"b":null}],"c":true}"#).unwrap();
    let c = v.clone();
    assert_eq!(format!("{:?}", c), format!("{:?}", v));
    match c.get("c") {
        Some(JsonValue::Bool(true)) => {}
        other => panic!("unexpected {:?}", other),
    }
}

#[test]
fn error_json_message_reads_back() {
    for msg in ["plain", "say \"hi\"", "back\\slash \\\" mix", "", "a\nb", "tab\there\r\u{8}\u{c}\u{0}\u{1f}"] {
        let v: serde_json::Value = serde_json::from_str(&make_error_json(msg)).unwrap();
        assert_eq!(v["error"].as_str(), Some(msg));
    }
}
