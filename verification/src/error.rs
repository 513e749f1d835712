//! Errors of the library, their messages and their machine-readable reports.
use vstd::prelude::*;
use vstd::string::*;

use crate::json_text::{json_escape, is_control, read_json_string_body, push_json_escaped_str, law_json_escape_reads_back};
use crate::text::{decimal, u64_to_string, concat_strs, concat_seqs};

verus! {

/// An error of the library.
#[derive(Debug)]
pub enum ClaudeError {
    ApiError { provider: String, message: String },
    ToolError { tool: String, message: String },
    SessionError { session_id: String, message: String },
    PermissionError { resource: String, action: String },
    IoError { path: String, message: String },
    ConfigError { message: String },
    SerializationError { message: String },
    NetworkError { message: String },
    RateLimitError { provider: String, retry_after: u64 },
    AuthError { message: String },
    Unknown(String),
}

/// The human-readable message of an error.
pub open spec fn error_text(e: ClaudeError) -> Seq<char> {
    match e {
        ClaudeError::ApiError { provider, message } => "API error: "@ + provider@ + " - "@ + message@,
        ClaudeError::ToolError { tool, message } => "Tool error: "@ + tool@ + " - "@ + message@,
        ClaudeError::SessionError { session_id, message } => "Session error: "@ + session_id@
            + " - "@ + message@,
        ClaudeError::PermissionError { resource, action } => "Permission error: "@ + resource@
            + " - "@ + action@,
        ClaudeError::IoError { path, message } => "IO error: "@ + path@ + " - "@ + message@,
        ClaudeError::ConfigError { message } => "Configuration error: "@ + message@,
        ClaudeError::SerializationError { message } => "Serialization error: "@ + message@,
        ClaudeError::NetworkError { message } => "Network error: "@ + message@,
        ClaudeError::RateLimitError { provider, retry_after } => "Rate limit error: "@ + provider@
            + " - retry after "@ + decimal(retry_after as nat) + "s"@,
        ClaudeError::AuthError { message } => "Authentication error: "@ + message@,
        ClaudeError::Unknown(message) => "Unknown error: "@ + message@,
    }
}

/// The machine-readable kind of an error.
pub open spec fn error_kind(e: ClaudeError) -> Seq<char> {
    match e {
        ClaudeError::ApiError { .. } => "api_error"@,
        ClaudeError::ToolError { .. } => "tool_error"@,
        ClaudeError::SessionError { .. } => "session_error"@,
        ClaudeError::PermissionError { .. } => "permission_error"@,
        ClaudeError::IoError { .. } => "io_error"@,
        ClaudeError::ConfigError { .. } => "config_error"@,
        ClaudeError::SerializationError { .. } => "serialization_error"@,
        ClaudeError::NetworkError { .. } => "network_error"@,
        ClaudeError::RateLimitError { .. } => "rate_limit_error"@,
        ClaudeError::AuthError { .. } => "auth_error"@,
        ClaudeError::Unknown(_) => "unknown_error"@,
    }
}

/// The fields of the serialised form of an error: its message, its kind, and
/// the one detail field that its kind carries.
pub struct ErrorReport {
    pub error: String,
    pub error_type: String,
    pub provider: Option<String>,
    pub tool: Option<String>,
    pub session_id: Option<String>,
    pub resource: Option<String>,
    pub path: Option<String>,
    pub retry_after: Option<u64>,
}

/// The detail fields of a report as the error determines them.
pub open spec fn report_matches(r: ErrorReport, e: ClaudeError) -> bool {
    &&& r.error@ == error_text(e)
    &&& r.error_type@ == error_kind(e)
    &&& crate::message::opt_text(r.provider) == match e {
        ClaudeError::ApiError { provider, .. } => Some(provider@),
        ClaudeError::RateLimitError { provider, .. } => Some(provider@),
        _ => None,
    }
    &&& crate::message::opt_text(r.tool) == match e {
        ClaudeError::ToolError { tool, .. } => Some(tool@),
        _ => None,
    }
    &&& crate::message::opt_text(r.session_id) == match e {
        ClaudeError::SessionError { session_id, .. } => Some(session_id@),
        _ => None,
    }
    &&& crate::message::opt_text(r.resource) == match e {
        ClaudeError::PermissionError { resource, .. } => Some(resource@),
        _ => None,
    }
    &&& crate::message::opt_text(r.path) == match e {
        ClaudeError::IoError { path, .. } => Some(path@),
        _ => None,
    }
    &&& r.retry_after == match e {
        ClaudeError::RateLimitError { retry_after, .. } => Some(retry_after),
        _ => None,
    }
}

impl ClaudeError {
    /// The human-readable message of the error.
    pub fn message_text(&self) -> (r: String)
        ensures
            r@ == error_text(*self),
    {
        let r = match self {
            ClaudeError::ApiError { provider, message } => concat_strs(
                &["API error: ", provider.as_str(), " - ", message.as_str()],
            ),
            ClaudeError::ToolError { tool, message } => concat_strs(
                &["Tool error: ", tool.as_str(), " - ", message.as_str()],
            ),
            ClaudeError::SessionError { session_id, message } => concat_strs(
                &["Session error: ", session_id.as_str(), " - ", message.as_str()],
            ),
            ClaudeError::PermissionError { resource, action } => concat_strs(
                &["Permission error: ", resource.as_str(), " - ", action.as_str()],
            ),
            ClaudeError::IoError { path, message } => concat_strs(
                &["IO error: ", path.as_str(), " - ", message.as_str()],
            ),
            ClaudeError::ConfigError { message } => concat_strs(
                &["Configuration error: ", message.as_str()],
            ),
            ClaudeError::SerializationError { message } => concat_strs(
                &["Serialization error: ", message.as_str()],
            ),
            ClaudeError::NetworkError { message } => concat_strs(
                &["Network error: ", message.as_str()],
            ),
            ClaudeError::RateLimitError { provider, retry_after } => {
                let secs = u64_to_string(*retry_after);
                concat_strs(
                    &["Rate limit error: ", provider.as_str(), " - retry after ", secs.as_str(), "s"],
                )
            },
            ClaudeError::AuthError { message } => concat_strs(
                &["Authentication error: ", message.as_str()],
            ),
            ClaudeError::Unknown(message) => concat_strs(&["Unknown error: ", message.as_str()]),
        };
        proof {
            reveal_with_fuel(concat_seqs, 6);
        }
        r
    }

    /// The machine-readable kind of the error, such as `api_error`.
    pub fn kind_name(&self) -> (r: &'static str)
        ensures
            r@ == error_kind(*self),
    {
        match self {
            ClaudeError::ApiError { .. } => "api_error",
            ClaudeError::ToolError { .. } => "tool_error",
            ClaudeError::SessionError { .. } => "session_error",
            ClaudeError::PermissionError { .. } => "permission_error",
            ClaudeError::IoError { .. } => "io_error",
            ClaudeError::ConfigError { .. } => "config_error",
            ClaudeError::SerializationError { .. } => "serialization_error",
            ClaudeError::NetworkError { .. } => "network_error",
            ClaudeError::RateLimitError { .. } => "rate_limit_error",
            ClaudeError::AuthError { .. } => "auth_error",
            ClaudeError::Unknown(_) => "unknown_error",
        }
    }

    /// The fields of the serialised form of the error.
    pub fn report(&self) -> (r: ErrorReport)
        ensures
            report_matches(r, *self),
    {
        let error = self.message_text();
        let error_type = String::from_str(self.kind_name());
        let mut r = ErrorReport {
            error,
            error_type,
            provider: None,
            tool: None,
            session_id: None,
            resource: None,
            path: None,
            retry_after: None,
        };
        match self {
            ClaudeError::ApiError { provider, .. } => {
                r.provider = Some(provider.clone());
            },
            ClaudeError::RateLimitError { provider, retry_after } => {
                r.provider = Some(provider.clone());
                r.retry_after = Some(*retry_after);
            },
            ClaudeError::ToolError { tool, .. } => {
                r.tool = Some(tool.clone());
            },
            ClaudeError::SessionError { session_id, .. } => {
                r.session_id = Some(session_id.clone());
            },
            ClaudeError::PermissionError { resource, .. } => {
                r.resource = Some(resource.clone());
            },
            ClaudeError::IoError { path, .. } => {
                r.path = Some(path.clone());
            },
            _ => {},
        }
        r
    }
}

/// An error of the configuration store.
#[derive(Debug)]
pub enum ConfigError {
    DatabaseError(String),
    NoProjectDir,
    SerializationError(String),
    IoError(String),
}

/// The human-readable message of a configuration error.
pub open spec fn config_error_text(e: ConfigError) -> Seq<char> {
    match e {
        ConfigError::DatabaseError(m) => "Database error: "@ + m@,
        ConfigError::NoProjectDir => "No project directory set"@,
        ConfigError::SerializationError(m) => "Serialization error: "@ + m@,
        ConfigError::IoError(m) => "IO error: "@ + m@,
    }
}

impl ConfigError {
    /// The human-readable message of the error.
    pub fn message_text(&self) -> (r: String)
        ensures
            r@ == config_error_text(*self),
    {
        let r = match self {
            ConfigError::DatabaseError(m) => concat_strs(&["Database error: ", m.as_str()]),
            ConfigError::NoProjectDir => String::from_str("No project directory set"),
            ConfigError::SerializationError(m) => concat_strs(
                &["Serialization error: ", m.as_str()],
            ),
            ConfigError::IoError(m) => concat_strs(&["IO error: ", m.as_str()]),
        };
        proof {
            reveal_with_fuel(concat_seqs, 3);
        }
        r
    }
}

/// The JSON object `{"error":"<msg>"}`, with `msg` written as the body of a
/// JSON string.
pub open spec fn error_json_text(msg: Seq<char>) -> Seq<char> {
    "{\"error\":\""@ + json_escape(msg) + "\"}"@
}

/// The JSON object `{"error":"<msg>"}`, with `msg` escaped as JSON requires.
pub fn make_error_json(msg: &str) -> (r: String)
    ensures
        r@ == error_json_text(msg@),
{
    let mut out = String::from_str("{\"error\":\"");
    push_json_escaped_str(&mut out, msg);
    out.append("\"}");
    out
}

/// The error object is JSON whose message reads back: after `{"error":"`
/// comes a JSON string body, with no raw control character, that reads as
/// the message and is closed by a quote followed by `}`.
pub proof fn law_error_json_reads_back(msg: Seq<char>)
    ensures
        ({
            let prefix = "{\"error\":\""@;
            let t = error_json_text(msg);
            let body = t.subrange(prefix.len() as int, t.len() as int);
            &&& t.subrange(0, prefix.len() as int) == prefix
            &&& forall|i: int| 0 <= i < json_escape(msg).len() ==> !is_control(#[trigger] body[i])
            &&& read_json_string_body(body) == Some((msg, seq!['}']))
        }),
{
    reveal_strlit("{\"error\":\"");
    reveal_strlit("\"}");
    let prefix = "{\"error\":\""@;
    let t = error_json_text(msg);
    assert("\"}"@ =~= seq!['"'] + seq!['}']);
    assert(t.subrange(0, prefix.len() as int) =~= prefix);
    let body = t.subrange(prefix.len() as int, t.len() as int);
    assert(body =~= json_escape(msg) + seq!['"'] + seq!['}']);
    law_json_escape_reads_back(msg, seq!['}']);
    assert forall|i: int| 0 <= i < json_escape(msg).len() implies !is_control(#[trigger] body[i]) by {
        assert(body[i] == json_escape(msg)[i]);
    }
}

} // verus!
