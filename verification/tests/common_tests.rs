use claude_core::common::{backoff_fits, retry_delay_ms};
use claude_core::{estimate_token_count, parse_sse_line, truncate_text};

#[test]
fn sse_lines() {
    assert_eq!(parse_sse_line("data: {\"x\":1}"), Some("{\"x\":1}".to_string()));
    assert_eq!(parse_sse_line("data: [DONE]"), None);
    assert_eq!(parse_sse_line("event: ping"), None);
    assert_eq!(parse_sse_line("data:nospace"), None);
    assert_eq!(parse_sse_line("data: "), Some(String::new()));
}

#[test]
fn token_estimates_count_characters() {
    assert_eq!(estimate_token_count(""), 0);
    assert_eq!(estimate_token_count("abcdefgh"), 2);
    assert_eq!(estimate_token_count("abc"), 0);
    assert_eq!(estimate_token_count("ééééé"), 1);
}

#[test]
fn truncation_by_characters() {
    assert_eq!(truncate_text("abcdefghij", 2), "abcdefgh");
    assert_eq!(truncate_text("short", 10), "short");
    assert_eq!(truncate_text("ééééé", 1), "éééé");
    assert_eq!(truncate_text("abc", 0), "");
}

#[test]
fn retry_schedule_doubles_until_the_limit() {
    assert_eq!(retry_delay_ms(1, 3), Some(1000));
    assert_eq!(retry_delay_ms(2, 3), Some(2000));
    assert_eq!(retry_delay_ms(3, 3), None);
    assert_eq!(retry_delay_ms(1, 0), None);
    assert_eq!(retry_delay_ms(0, 5), Some(500));
    assert!(backoff_fits(55));
    assert!(!backoff_fits(56));
    assert_eq!(retry_delay_ms(55, 60), Some(500u64 << 55));
}

#[test]
fn truncated_text_fits_its_budget() {
    for (text, n) in [("abcdefghijklmnop", 3usize), ("ééééééééé", 1), ("short", 2), ("", 0)] {
        let t = truncate_text(text, n);
        assert!(estimate_token_count(&t) <= n);
        assert!(text.starts_with(&t));
        if estimate_token_count(text) < n {
            assert_eq!(t, text);
        }
    }
}
