//! Core logic of a conversational assistant client: messages, streaming
//! event decoding, context compaction, rate limiting, key stores and
//! configuration records.
pub mod text;
pub mod json;
pub mod json_text;
pub mod message;
pub mod common;
pub mod error;
pub mod rate_limiter;
pub mod table;
pub mod keys;
pub mod stream;
pub mod providers;
pub mod session;
pub mod schema;
pub mod conversation;
pub mod context;
pub mod config;
pub mod query;
pub mod components;

pub use common::{estimate_token_count, parse_sse_line, truncate_text};
pub use config::{ConfigManager, GlobalConfig, ProjectConfig};
pub use context::{CompactionPlan, ContextManager, ConversationStats};
pub use conversation::ConversationEngine;
pub use error::{ClaudeError, ConfigError};
pub use json::JsonValue;
pub use keys::{ApiKeyStore, KeyBindings, KeyManager, ProviderCredentials};
pub use message::{Message, MessageList, Role, ToolCall};
pub use providers::{BalanceInfo, ModelInfo, ModelResponse, ProviderConfig, RateLimitConfig, Usage};
pub use query::QueryEngine;
pub use rate_limiter::RateLimiter;
pub use schema::{ConfigEntity, DatabaseSchema, MessageEntity, SessionEntity};
pub use session::{Session, SessionConfig, SessionManager};
pub use stream::{SSEParser, StreamChunk, ToolCallDelta};
