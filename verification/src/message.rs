//! Conversation messages.
use vstd::prelude::*;
use vstd::string::*;

use crate::json::{JsonValue, JsonModel, opt_json_view};

verus! {

/// The current time in microseconds since the Unix epoch (UTC), read with
/// `chrono::Utc::now`. Nothing is promised of the value: it is the clock's.
#[verifier::external_body]
pub(crate) fn now_micros() -> i64 {
    chrono::Utc::now().timestamp_micros()
}

/// Who a message is from.
#[derive(Debug, Clone, Copy, PartialEq, Eq, Structural)]
pub enum Role {
    User,
    Assistant,
    System,
    ToolUse,
    ToolResult,
}

/// The wire name of a role.
pub open spec fn role_text(r: Role) -> Seq<char> {
    match r {
        Role::User => seq!['u', 's', 'e', 'r'],
        Role::Assistant => seq!['a', 's', 's', 'i', 's', 't', 'a', 'n', 't'],
        Role::System => seq!['s', 'y', 's', 't', 'e', 'm'],
        Role::ToolUse => seq!['t', 'o', 'o', 'l', '_', 'u', 's', 'e'],
        Role::ToolResult => seq!['t', 'o', 'o', 'l', '_', 'r', 'e', 's', 'u', 'l', 't'],
    }
}

/// The role that a stored role name stands for; an unknown name reads as `User`.
pub open spec fn role_from_text(s: Seq<char>) -> Role {
    if s == role_text(Role::Assistant) {
        Role::Assistant
    } else if s == role_text(Role::System) {
        Role::System
    } else if s == role_text(Role::ToolUse) {
        Role::ToolUse
    } else if s == role_text(Role::ToolResult) {
        Role::ToolResult
    } else {
        Role::User
    }
}

impl Role {
    /// The wire name: `user`, `assistant`, `system`, `tool_use` or `tool_result`.
    pub fn as_str(&self) -> (r: &'static str)
        ensures
            r@ == role_text(*self),
    {
        proof {
            reveal_strlit("user");
            reveal_strlit("assistant");
            reveal_strlit("system");
            reveal_strlit("tool_use");
            reveal_strlit("tool_result");
        }
        match self {
            Role::User => "user",
            Role::Assistant => "assistant",
            Role::System => "system",
            Role::ToolUse => "tool_use",
            Role::ToolResult => "tool_result",
        }
    }

    /// The role of a stored role name; any name but the five wire names reads as `User`.
    pub fn from_name(s: &str) -> (r: Role)
        ensures
            r == role_from_text(s@),
    {
        if crate::text::str_eq(s, Role::Assistant.as_str()) {
            Role::Assistant
        } else if crate::text::str_eq(s, Role::System.as_str()) {
            Role::System
        } else if crate::text::str_eq(s, Role::ToolUse.as_str()) {
            Role::ToolUse
        } else if crate::text::str_eq(s, Role::ToolResult.as_str()) {
            Role::ToolResult
        } else {
            Role::User
        }
    }
}

/// Reading back the wire name of a role gives the role.
pub proof fn law_role_name_round_trip(r: Role)
    ensures
        role_from_text(role_text(r)) == r,
{
    assert(role_text(Role::User) != role_text(Role::Assistant));
    assert(role_text(Role::User) != role_text(Role::System));
    assert(role_text(Role::User) != role_text(Role::ToolUse));
    assert(role_text(Role::User) != role_text(Role::ToolResult));
    assert(role_text(Role::System) != role_text(Role::Assistant));
    assert(role_text(Role::ToolUse) != role_text(Role::Assistant));
    assert(role_text(Role::ToolUse) != role_text(Role::System));
    assert(role_text(Role::ToolResult) != role_text(Role::Assistant));
    assert(role_text(Role::ToolResult) != role_text(Role::System));
    assert(role_text(Role::ToolResult) != role_text(Role::ToolUse));
}

/// The text of an optional string.
pub open spec fn opt_text(o: Option<String>) -> Option<Seq<char>> {
    match o {
        Some(s) => Some(s@),
        None => None,
    }
}

/// A message of a conversation. `timestamp` is in microseconds since the Unix
/// epoch (UTC).
#[derive(Debug)]
pub struct Message {
    pub role: Role,
    pub content: String,
    pub name: Option<String>,
    pub tool_call_id: Option<String>,
    pub tool_name: Option<String>,
    pub tool_input: Option<JsonValue>,
    pub thinking: Option<String>,
    pub thinking_signature: Option<String>,
    pub timestamp: i64,
    pub id: Option<String>,
}

/// The content of a message.
pub struct MessageView {
    pub role: Role,
    pub content: Seq<char>,
    pub name: Option<Seq<char>>,
    pub tool_call_id: Option<Seq<char>>,
    pub tool_name: Option<Seq<char>>,
    pub tool_input: Option<JsonModel>,
    pub thinking: Option<Seq<char>>,
    pub thinking_signature: Option<Seq<char>>,
    pub timestamp: i64,
    pub id: Option<Seq<char>>,
}

impl View for Message {
    type V = MessageView;

    open spec fn view(&self) -> MessageView {
        MessageView {
            role: self.role,
            content: self.content@,
            name: opt_text(self.name),
            tool_call_id: opt_text(self.tool_call_id),
            tool_name: opt_text(self.tool_name),
            tool_input: opt_json_view(self.tool_input),
            thinking: opt_text(self.thinking),
            thinking_signature: opt_text(self.thinking_signature),
            timestamp: self.timestamp,
            id: opt_text(self.id),
        }
    }
}

/// The views of a sequence of messages.
pub open spec fn message_views(s: Seq<Message>) -> Seq<MessageView> {
    s.map_values(|m: Message| m@)
}

/// A message with the given role and content and no other field set.
pub open spec fn is_plain_message(m: MessageView, role: Role, content: Seq<char>) -> bool {
    &&& m.role == role
    &&& m.content == content
    &&& m.name is None
    &&& m.tool_call_id is None
    &&& m.tool_name is None
    &&& m.tool_input is None
    &&& m.thinking is None
    &&& m.thinking_signature is None
    &&& m.id is None
}

/// A copy of an optional JSON value.
pub fn clone_opt_json(o: &Option<JsonValue>) -> (r: Option<JsonValue>)
    ensures
        opt_json_view(r) == opt_json_view(*o),
{
    match o {
        Some(v) => Some(v.clone()),
        None => None,
    }
}

impl Clone for Message {
    fn clone(&self) -> (r: Self)
        ensures
            r@ == self@,
    {
        Message {
            role: self.role,
            content: self.content.clone(),
            name: crate::text::clone_opt_string(&self.name),
            tool_call_id: crate::text::clone_opt_string(&self.tool_call_id),
            tool_name: crate::text::clone_opt_string(&self.tool_name),
            tool_input: clone_opt_json(&self.tool_input),
            thinking: crate::text::clone_opt_string(&self.thinking),
            thinking_signature: crate::text::clone_opt_string(&self.thinking_signature),
            timestamp: self.timestamp,
            id: crate::text::clone_opt_string(&self.id),
        }
    }
}

impl Message {
    /// A message with the given role and content, stamped with the current time.
    fn plain(role: Role, content: &str) -> (r: Message)
        ensures
            is_plain_message(r@, role, content@),
    {
        Message {
            role,
            content: String::from_str(content),
            name: None,
            tool_call_id: None,
            tool_name: None,
            tool_input: None,
            thinking: None,
            thinking_signature: None,
            timestamp: now_micros(),
            id: None,
        }
    }

    /// A user message.
    pub fn user(content: &str) -> (r: Message)
        ensures
            is_plain_message(r@, Role::User, content@),
    {
        Message::plain(Role::User, content)
    }

    /// An assistant message.
    pub fn assistant(content: &str) -> (r: Message)
        ensures
            is_plain_message(r@, Role::Assistant, content@),
    {
        Message::plain(Role::Assistant, content)
    }

    /// A system message.
    pub fn system(content: &str) -> (r: Message)
        ensures
            is_plain_message(r@, Role::System, content@),
    {
        Message::plain(Role::System, content)
    }

    /// A tool call: empty content, with the tool's name, the call's id and its input.
    pub fn tool_use(tool_name: &str, tool_call_id: &str, input: JsonValue) -> (r: Message)
        ensures
            r@.role == Role::ToolUse,
            r@.content == Seq::<char>::empty(),
            r@.tool_name == Some(tool_name@),
            r@.tool_call_id == Some(tool_call_id@),
            r@.tool_input == Some(input@),
            r@.name is None,
            r@.thinking is None,
            r@.thinking_signature is None,
            r@.id is None,
    {
        Message {
            role: Role::ToolUse,
            content: String::new(),
            name: None,
            tool_call_id: Some(String::from_str(tool_call_id)),
            tool_name: Some(String::from_str(tool_name)),
            tool_input: Some(input),
            thinking: None,
            thinking_signature: None,
            timestamp: now_micros(),
            id: None,
        }
    }

    /// The result of a tool call, answering the call `tool_call_id`.
    pub fn tool_result(tool_call_id: &str, content: &str) -> (r: Message)
        ensures
            r@.role == Role::ToolResult,
            r@.content == content@,
            r@.tool_call_id == Some(tool_call_id@),
            r@.tool_name is None,
            r@.tool_input is None,
            r@.name is None,
            r@.thinking is None,
            r@.thinking_signature is None,
            r@.id is None,
    {
        Message {
            role: Role::ToolResult,
            content: String::from_str(content),
            name: None,
            tool_call_id: Some(String::from_str(tool_call_id)),
            tool_name: None,
            tool_input: None,
            thinking: None,
            thinking_signature: None,
            timestamp: now_micros(),
            id: None,
        }
    }
}

/// A tool call requested by the model.
#[derive(Debug)]
pub struct ToolCall {
    pub id: String,
    pub name: String,
    pub input: JsonValue,
}

/// A list of messages.
#[derive(Debug)]
pub struct MessageList {
    pub messages: Vec<Message>,
}

impl MessageList {
    /// An empty list.
    pub fn new() -> (r: MessageList)
        ensures
            r.messages@.len() == 0,
    {
        MessageList { messages: Vec::new() }
    }

    /// An empty list with room for `capacity` messages.
    pub fn with_capacity(capacity: usize) -> (r: MessageList)
        ensures
            r.messages@.len() == 0,
    {
        MessageList { messages: Vec::with_capacity(capacity) }
    }
}

impl Default for MessageList {
    fn default() -> (r: MessageList)
        ensures
            r.messages@.len() == 0,
    {
        MessageList::new()
    }
}

impl From<Vec<Message>> for MessageList {
    fn from(messages: Vec<Message>) -> (r: MessageList) {
        MessageList { messages }
    }
}

impl IntoIterator for MessageList {
    type Item = Message;
    type IntoIter = std::vec::IntoIter<Message>;

    /// The messages, in order.
    fn into_iter(self) -> (r: std::vec::IntoIter<Message>)
        ensures
            r == vstd::std_specs::vec::spec_into_iter(self.messages),
    {
        self.messages.into_iter()
    }
}

impl vstd::std_specs::convert::FromSpecImpl<Vec<Message>> for MessageList {
    open spec fn obeys_from_spec() -> bool {
        true
    }

    open spec fn from_spec(v: Vec<Message>) -> MessageList {
        MessageList { messages: v }
    }
}

} // verus!
