use claude_core::error::ConfigError;
use claude_core::rate_limiter::RateLimiter;
use claude_core::ClaudeError;

#[test]
fn error_messages() {
    let e = ClaudeError::ApiError { provider: "deepseek".into(), message: "boom".into() };
    assert_eq!(e.message_text(), "API error: deepseek - boom");
    let e = ClaudeError::RateLimitError { provider: "p".into(), retry_after: 30 };
    assert_eq!(e.message_text(), "Rate limit error: p - retry after 30s");
    assert_eq!(ClaudeError::Unknown("x".into()).message_text(), "Unknown error: x");
    assert_eq!(ClaudeError::ConfigError { message: "m".into() }.message_text(), "Configuration error: m");
    assert_eq!(
        ClaudeError::PermissionError { resource: "r".into(), action: "a".into() }.message_text(),
        "Permission error: r - a"
    );
}

#[test]
fn error_reports() {
    let r = ClaudeError::RateLimitError { provider: "p".into(), retry_after: 7 }.report();
    assert_eq!(r.error_type, "rate_limit_error");
    assert_eq!(r.provider.as_deref(), Some("p"));
    assert_eq!(r.retry_after, Some(7));
    assert!(r.path.is_none());
    let r = ClaudeError::IoError { path: "/x".into(), message: "denied".into() }.report();
    assert_eq!(r.error_type, "io_error");
    assert_eq!(r.path.as_deref(), Some("/x"));
    assert_eq!(r.error, "IO error: /x - denied");
    assert!(r.provider.is_none());
    let r = ClaudeError::ToolError { tool: "t".into(), message: "m".into() }.report();
    assert_eq!(r.tool.as_deref(), Some("t"));
    let r = ClaudeError::SessionError { session_id: "s".into(), message: "m".into() }.report();
    assert_eq!(r.session_id.as_deref(), Some("s"));
    assert_eq!(ClaudeError::NetworkError { message: "n".into() }.kind_name(), "network_error");
    assert_eq!(ClaudeError::AuthError { message: "n".into() }.kind_name(), "auth_error");
}

#[test]
fn config_error_messages() {
    assert_eq!(ConfigError::NoProjectDir.message_text(), "No project directory set");
    assert_eq!(ConfigError::DatabaseError("locked".into()).message_text(), "Database error: locked");
    assert_eq!(ConfigError::IoError("x".into()).message_text(), "IO error: x");
}

#[test]
fn limiter_admits_within_budget() {
    let mut rl = RateLimiter::new(2, 100);
    assert!(rl.check_at(60, 5));
    rl.consume_at(60, 5);
    assert!(rl.check_at(40, 10));
    assert!(!rl.check_at(41, 10));
    rl.consume_at(40, 10);
    assert!(!rl.check_at(0, 20));
}

#[test]
fn limiter_renews_after_a_minute() {
    let mut rl = RateLimiter::new(1, 10);
    rl.consume_at(10, 0);
    assert!(!rl.check_at(1, 59));
    assert!(rl.check_at(10, 60));
    assert!(!rl.check_at(11, 61));
}

#[test]
fn limiter_retry_after() {
    let rl = RateLimiter::new(1, 1);
    assert_eq!(rl.retry_after_at(0), 60);
    assert_eq!(rl.retry_after_at(45), 15);
    assert_eq!(rl.retry_after_at(60), 0);
    assert_eq!(rl.retry_after_at(1000), 0);
    let mut live = RateLimiter::new(5, 50);
    assert!(live.check(10));
    live.consume(10);
    assert!(live.retry_after() <= 60);
}

#[test]
fn limiter_counts_every_request_of_a_window() {
    let mut rl = RateLimiter::new(3, 100);
    for c in [10u32, 20, 30] {
        rl.consume_at(c, 5);
    }
    assert!(!rl.check_at(0, 30));
    let mut rl = RateLimiter::new(4, 100);
    for c in [10u32, 20, 30] {
        rl.consume_at(c, 5);
    }
    assert!(rl.check_at(40, 30));
    assert!(rl.check_at(40, 31));
    assert!(!rl.check_at(41, 31));
    rl.consume_at(50, 40);
    assert!(!rl.check_at(0, 41));
    assert!(rl.check_at(100, 60));
}

#[test]
fn limiter_counts_on_the_clock_within_a_window() {
    let mut rl = RateLimiter::new(3, 100);
    rl.consume(30);
    rl.consume(40);
    assert!(rl.check(30));
    assert!(rl.check(30));
    assert!(!rl.check(31));
    rl.consume(0);
    assert!(!rl.check(0));
}
