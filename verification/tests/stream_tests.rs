use claude_core::stream::{trim_line_end, StreamCollector};
use claude_core::{SSEParser, StreamChunk};

fn feed(p: &mut SSEParser, lines: &[&str]) -> Vec<Option<StreamChunk>> {
    lines.iter().map(|l| p.parse_line(l)).collect()
}

#[test]
fn delta_content_is_yielded_at_the_blank_line() {
    let mut p = SSEParser::new();
    let out = feed(&mut p, &[r#"data: {"choices":[{"delta":{"content":"Hel"}}]}"#, ""]);
    assert!(out[0].is_none());
    let c = out[1].as_ref().unwrap();
    assert_eq!(c.content, "Hel");
    assert!(!c.is_complete);
    assert!(c.tool_call.is_none());
}

#[test]
fn data_lines_of_one_event_are_joined() {
    let mut p = SSEParser::default();
    let out = feed(&mut p, &["data: {\"content\":", "data: \"joined\"}", ""]);
    assert_eq!(out[2].as_ref().unwrap().content, "joined");
}

#[test]
fn done_marker_completes_the_stream() {
    let mut p = SSEParser::new();
    let out = feed(&mut p, &["event: message", "data: [DONE]", ""]);
    let c = out[2].as_ref().unwrap();
    assert!(c.is_complete);
    assert_eq!(c.content, "");
}

#[test]
fn other_shapes_and_lines() {
    let mut p = SSEParser::new();
    let out = feed(
        &mut p,
        &[
            ": keep-alive",
            r#"data:{"choices":[{"text":"legacy"}]}"#,
            "",
            r#"data: {"other":1}"#,
            "",
            "",
            "data: not json",
            "",
        ],
    );
    assert!(out[0].is_none());
    assert_eq!(out[2].as_ref().unwrap().content, "legacy");
    assert!(out[4].is_none());
    assert!(out[5].is_none());
    assert!(out[7].is_none());
}

#[test]
fn chunk_constructors() {
    let t = StreamChunk::new_text("abc", false);
    assert_eq!(t.content, "abc");
    assert!(t.tool_call.is_none());
    let c = StreamChunk::new_tool_call("id1", "read", "{\"p\"", true);
    assert_eq!(c.content, "");
    assert!(c.is_complete);
    let d = c.tool_call.unwrap();
    assert_eq!((d.id.as_str(), d.name.as_str(), d.input_delta.as_str()), ("id1", "read", "{\"p\""));
}

#[test]
fn line_endings_are_trimmed() {
    assert_eq!(trim_line_end("data: x\r\n"), "data: x");
    assert_eq!(trim_line_end("\n\r\n"), "");
    assert_eq!(trim_line_end("a b "), "a b ");
}

#[test]
fn collector_gathers_the_response() {
    let mut c = StreamCollector::new();
    let a = c.push_line("data: {\"content\":\"Hello, \"}\r\n");
    assert!(a.emit.is_none() && !a.done);
    let b = c.push_line("\r\n");
    assert_eq!(b.emit.as_deref(), Some("Hello, "));
    assert!(!b.done);
    c.push_line("data: {\"content\":\"world\"}\n");
    let d = c.push_line("\n");
    assert_eq!(d.emit.as_deref(), Some("world"));
    c.push_line("data: [DONE]\n");
    let e = c.push_line("\n");
    assert!(e.done);
    assert!(e.emit.is_none());
    assert_eq!(c.full_response, "Hello, world");
}
