use claude_core::providers::{
    deepseek_balance, deepseek_response, http_error, siliconflow_balance, siliconflow_response,
    siliconflow_stream_chunk, deepseek_stream_line, ChoiceData, DeepSeekStream, OutputKind,
    ProviderEndpoint, SiliconFlowStream, StreamEvent, StreamLine,
};
use claude_core::{ClaudeError, Usage};

fn choice(content: Option<&str>, reasoning: Option<&str>, finish: Option<&str>) -> ChoiceData {
    ChoiceData {
        content: content.map(|s| s.to_string()),
        reasoning_content: reasoning.map(|s| s.to_string()),
        finish_reason: finish.map(|s| s.to_string()),
    }
}

fn usage() -> Usage {
    Usage { input_tokens: 12, output_tokens: 34 }
}

#[test]
fn endpoints_and_urls() {
    let d = ProviderEndpoint::deepseek("sk-1", None);
    assert_eq!(d.name, "deepseek");
    assert_eq!(d.chat_url(), "https://api.deepseek.com/chat/completions");
    assert_eq!(d.models_url(), "https://api.deepseek.com/models");
    assert_eq!(d.balance_url(), "https://api.deepseek.com/user/balance");
    assert_eq!(d.bearer(), "Bearer sk-1");
    let s = ProviderEndpoint::siliconflow("k", None);
    assert_eq!(s.chat_url(), "https://api.siliconflow.cn/v1/chat/completions");
    assert_eq!(s.balance_url(), "https://api.siliconflow.cn/v1/user/info");
    let custom = ProviderEndpoint::deepseek("k", Some("http://localhost:9".to_string()));
    assert_eq!(custom.models_url(), "http://localhost:9/models");
}

#[test]
fn http_errors() {
    match http_error("deepseek", "401", Some("bad key")) {
        ClaudeError::ApiError { provider, message } => {
            assert_eq!(provider, "deepseek");
            assert_eq!(message, "HTTP 401 - bad key");
        }
        other => panic!("unexpected {:?}", other),
    }
    match http_error("siliconflow", "500", None) {
        ClaudeError::ApiError { message, .. } => assert_eq!(message, "HTTP 500"),
        other => panic!("unexpected {:?}", other),
    }
}

#[test]
fn deepseek_answers() {
    let r = deepseek_response(
        "id".into(),
        "deepseek-chat".into(),
        vec![choice(Some("hi"), Some("think"), Some("stop")), choice(Some("no"), None, None)],
        usage(),
    )
    .unwrap();
    assert_eq!(r.content, "hi");
    assert_eq!(r.thinking.as_deref(), Some("think"));
    assert_eq!(r.stop_reason.as_deref(), Some("stop"));
    assert_eq!(r.usage.output_tokens, 34);
    let r = deepseek_response("id".into(), "m".into(), vec![choice(None, None, None)], usage()).unwrap();
    assert_eq!(r.content, "");
    match deepseek_response("id".into(), "m".into(), vec![], usage()) {
        Err(ClaudeError::ApiError { provider, message }) => {
            assert_eq!(provider, "deepseek");
            assert_eq!(message, "No choices in response");
        }
        other => panic!("unexpected {:?}", other),
    }
}

#[test]
fn siliconflow_answers() {
    let r = siliconflow_response("i".into(), "m".into(), vec![choice(Some("ok"), Some("r"), Some("stop"))], usage());
    assert_eq!(r.content, "ok");
    assert!(r.thinking.is_none());
    assert_eq!(r.stop_reason.as_deref(), Some("stop"));
    let r = siliconflow_response("i".into(), "m".into(), vec![], usage());
    assert_eq!(r.content, "");
    assert!(r.stop_reason.is_none());
}

#[test]
fn balances() {
    let b = deepseek_balance(true, vec![("CNY".into(), "110.00".into()), ("USD".into(), "1".into())]);
    assert!(b.is_available);
    assert_eq!(b.currency.as_deref(), Some("CNY"));
    assert_eq!(b.total_balance.as_deref(), Some("110.00"));
    let b = deepseek_balance(false, vec![]);
    assert!(!b.is_available && b.currency.is_none() && b.total_balance.is_none());
    let s = siliconflow_balance("1".into(), Some("2".into()), Some("3".into()));
    assert_eq!(s.total_balance.as_deref(), Some("3"));
    assert_eq!(s.currency.as_deref(), Some("CNY"));
    assert!(s.is_available);
    assert_eq!(siliconflow_balance("1".into(), Some("2".into()), None).total_balance.as_deref(), Some("2"));
    assert_eq!(siliconflow_balance("1".into(), None, None).total_balance.as_deref(), Some("1"));
}

fn kind(l: StreamLine) -> Option<Option<String>> {
    match l {
        StreamLine::Done => Some(None),
        StreamLine::Payload(p) => Some(Some(p)),
        StreamLine::Ignore => None,
    }
}

#[test]
fn deepseek_lines() {
    assert_eq!(kind(deepseek_stream_line("data: [DONE]")), Some(None));
    assert_eq!(kind(deepseek_stream_line("data:   [DONE]  ")), Some(None));
    assert_eq!(kind(deepseek_stream_line("data:  {\"a\":1}\t")), Some(Some("{\"a\":1}".to_string())));
    assert_eq!(kind(deepseek_stream_line(": ping")), None);
    assert_eq!(kind(deepseek_stream_line("data:x")), None);
}

#[test]
fn siliconflow_chunks() {
    assert_eq!(kind(siliconflow_stream_chunk(b"data: [DONE]".to_vec())), Some(None));
    assert_eq!(kind(siliconflow_stream_chunk(b"data: {}".to_vec())), Some(Some("{}".to_string())));
    assert_eq!(kind(siliconflow_stream_chunk(b"event: x".to_vec())), None);
    assert_eq!(kind(siliconflow_stream_chunk(vec![b'd', b'a', b't', b'a', b':', b' ', 0xff])), None);
}

#[test]
fn deepseek_stream_splits_lines() {
    let mut s = DeepSeekStream::new();
    s.push_bytes(b"data: {\"a\"");
    assert_eq!(s.next_line(), None);
    s.push_bytes(b":1}  \n\ndata: [DONE]\n");
    assert_eq!(s.next_line().as_deref(), Some("data: {\"a\":1}"));
    assert_eq!(s.next_line().as_deref(), Some(""));
    assert_eq!(s.next_line().as_deref(), Some("data: [DONE]"));
    assert_eq!(s.next_line(), None);
    s.push_bytes(&[0xff, b'o', b'k', b'\n']);
    assert_eq!(s.next_line().as_deref(), Some("\u{FFFD}ok"));
}

#[test]
fn deepseek_stream_events() {
    let mut s = DeepSeekStream::new();
    let ev = StreamEvent { choices: Some(vec![choice(Some("Hi"), Some("hmm"), None)]) };
    let step = s.handle_event(Some(ev), None);
    assert!(step.error.is_none());
    assert_eq!(step.outputs.len(), 2);
    assert_eq!(step.outputs[0].kind, OutputKind::Content);
    assert_eq!(step.outputs[0].content, "Hi");
    assert_eq!(step.outputs[1].kind, OutputKind::Thinking);
    assert_eq!(step.outputs[1].content, "hmm");
    let step = s.handle_event(Some(StreamEvent { choices: Some(vec![]) }), None);
    assert!(step.outputs.is_empty() && step.error.is_none());
    let step = s.handle_event(Some(StreamEvent { choices: Some(vec![choice(None, None, Some("length"))]) }), None);
    assert_eq!(step.outputs[0].kind, OutputKind::Error);
    assert_eq!(step.outputs[0].content, "Stream ended unexpectedly");
    match step.error {
        Some(ClaudeError::ApiError { provider, message }) => {
            assert_eq!(provider, "deepseek");
            assert_eq!(message, "Stream ended unexpectedly");
        }
        other => panic!("unexpected {:?}", other),
    }
    let step = s.handle_event(Some(StreamEvent { choices: Some(vec![choice(Some("quota"), None, Some("error"))]) }), None);
    assert_eq!(step.outputs[0].content, "quota");
    let step = s.handle_event(None, Some("overloaded".to_string()));
    assert_eq!(step.outputs[0].kind.wire_name(), "error");
    assert_eq!(step.outputs[0].content, "overloaded");
    assert!(s.handle_event(None, None).outputs.is_empty());
    assert_eq!(s.full_response(), "Hi");
}

#[test]
fn siliconflow_stream_events() {
    let mut s = SiliconFlowStream::new();
    let a = s.handle_event(StreamEvent { choices: Some(vec![choice(Some("a"), None, None)]) }).unwrap();
    assert_eq!(a.kind, OutputKind::Content);
    assert_eq!(a.content, "a");
    assert_eq!(a.to_json(), r#"{"content":"a","type":"content"}"#);
    assert!(s.handle_event(StreamEvent { choices: None }).is_none());
    assert!(s.handle_event(StreamEvent { choices: Some(vec![choice(None, Some("r"), None)]) }).is_none());
    let b = s.handle_event(StreamEvent { choices: Some(vec![choice(Some("b"), None, None)]) }).unwrap();
    assert_eq!(b.content, "b");
    assert_eq!(s.full_response(), "ab");
    assert_eq!(OutputKind::Content.wire_name(), "content");
    assert_eq!(OutputKind::Thinking.wire_name(), "thinking");
}

#[test]
fn stream_chunks_are_json_objects() {
    let mut s = DeepSeekStream::new();
    let ev = StreamEvent { choices: Some(vec![choice(Some("line1\nsay \"hi\"\t\u{1}"), Some("why"), None)]) };
    let step = s.handle_event(Some(ev), None);
    let first: serde_json::Value = serde_json::from_str(&step.outputs[0].to_json()).unwrap();
    assert_eq!(first["type"], "content");
    assert_eq!(first["content"], "line1\nsay \"hi\"\t\u{1}");
    let second: serde_json::Value = serde_json::from_str(&step.outputs[1].to_json()).unwrap();
    assert_eq!(second["type"], "thinking");
    assert_eq!(second["content"], "why");
    assert_eq!(step.outputs[0].to_json(), "{\"content\":\"line1\\nsay \\\"hi\\\"\\t\\u0001\",\"type\":\"content\"}");
    let mut m = serde_json::Map::new();
    m.insert("type".to_string(), serde_json::Value::String("content".to_string()));
    m.insert("content".to_string(), serde_json::Value::String("line1\nsay \"hi\"\t\u{1}".to_string()));
    let expected = serde_json::Value::Object(m).to_string();
    assert_eq!(step.outputs[0].to_json(), expected);
}

fn drain(s: &mut DeepSeekStream, out: &mut Vec<String>) {
    while let Some(line) = s.next_line() {
        out.push(line);
    }
}

#[test]
fn lines_do_not_depend_on_chunking() {
    let body: &[u8] = b"data: {\"a\":1}\n\ndata: caf\xc3\xa9\ndata: [DONE]\n";
    let mut whole = DeepSeekStream::new();
    let mut expected = Vec::new();
    whole.push_bytes(body);
    drain(&mut whole, &mut expected);
    assert_eq!(expected, vec!["data: {\"a\":1}", "", "data: café", "data: [DONE]"]);
    for cut in 0..=body.len() {
        for cut2 in cut..=body.len() {
            let mut s = DeepSeekStream::new();
            let mut got = Vec::new();
            for chunk in [&body[..cut], &body[cut..cut2], &body[cut2..]] {
                s.push_bytes(chunk);
                drain(&mut s, &mut got);
            }
            assert_eq!(got, expected);
        }
    }
}
