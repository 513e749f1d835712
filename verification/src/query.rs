//! The messages of a query to a model.
use vstd::prelude::*;
use vstd::string::*;

use crate::error::ClaudeError;
use crate::json::{json_parse, json_member, json_text, parse_json};
use crate::json_text::{json_escape, push_json_escaped_str};
use crate::message::{Message, Role, message_views, is_plain_message};

verus! {

/// Builds the messages of queries.
#[derive(Debug, Clone, Copy)]
pub struct QueryEngine;

impl QueryEngine {
    /// A query engine.
    pub fn new() -> (r: QueryEngine) {
        QueryEngine
    }

    /// The messages of a query in context: the system prompt (if any) as a
    /// system message, the conversation so far, then the user's message.
    pub fn context_messages(&self, history: &[Message], user_message: &str, system_prompt: Option<&str>) -> (r:
        Vec<Message>)
        ensures
            ({
                let off: int = if system_prompt is Some {
                    1
                } else {
                    0
                };
                &&& r@.len() == off + history@.len() + 1
                &&& system_prompt matches Some(p) ==> is_plain_message(r@[0]@, Role::System, p@)
                &&& forall|j: int| 0 <= j < history@.len() ==> (#[trigger] r@[off + j])@ == history@[j]@
                &&& is_plain_message(r@.last()@, Role::User, user_message@)
            }),
    {
        let mut messages: Vec<Message> = Vec::new();
        let offset: usize = match system_prompt {
            Some(p) => {
                messages.push(Message::system(p));
                1
            },
            None => 0,
        };
        let ghost first = messages@;
        let mut i: usize = 0;
        while i < history.len()
            invariant
                i <= history@.len(),
                messages@.len() == offset + i,
                offset == if system_prompt is Some {
                    1usize
                } else {
                    0usize
                },
                first.len() == offset,
                forall|j: int| 0 <= j < offset ==> messages@[j] == first[j],
                system_prompt matches Some(p) ==> is_plain_message(first[0]@, Role::System, p@),
                forall|j: int| 0 <= j < i ==> (#[trigger] messages@[offset + j])@ == history@[j]@,
            decreases history.len() - i,
        {
            messages.push(history[i].clone());
            i = i + 1;
        }
        messages.push(Message::user(user_message));
        messages
    }
}

impl Default for QueryEngine {
    fn default() -> (r: QueryEngine) {
        QueryEngine::new()
    }
}

/// The content of the assistant message that a reply gives: the text of its
/// `content` member when the reply is a JSON object that has one as a string,
/// else the whole reply.
pub open spec fn reply_content(reply: Seq<char>) -> Seq<char> {
    match json_text(json_member(json_parse(reply), "content"@)) {
        Some(c) => c,
        None => reply,
    }
}

/// The reasoning of the assistant message that a reply gives: the text of
/// its `thinking` member when the reply is a JSON object that has one as a
/// string.
pub open spec fn reply_thinking(reply: Seq<char>) -> Option<Seq<char>> {
    json_text(json_member(json_parse(reply), "thinking"@))
}

/// The assistant message that records a reply.
pub fn assistant_reply(reply: &str) -> (r: Message)
    ensures
        r@.role == Role::Assistant,
        r@.content == reply_content(reply@),
        r@.thinking == reply_thinking(reply@),
        r@.name is None,
        r@.tool_call_id is None,
        r@.tool_name is None,
        r@.tool_input is None,
        r@.thinking_signature is None,
        r@.id is None,
{
    match parse_json(reply) {
        Some(v) => {
            let content = match v.get("content") {
                Some(c) => match c.as_str() {
                    Some(t) => t.as_str(),
                    None => reply,
                },
                None => reply,
            };
            let mut m = Message::assistant(content);
            m.thinking = match v.get("thinking") {
                Some(t) => match t.as_str() {
                    Some(s) => Some(s.clone()),
                    None => None,
                },
                None => None,
            };
            m
        },
        None => Message::assistant(reply),
    }
}

/// The JSON answer to a message: `{"content":"<content>"}`, with
/// `,"thinking":"<thinking>"` before the closing brace when there is
/// reasoning; both texts written as JSON string bodies.
pub open spec fn reply_json_text(content: Seq<char>, thinking: Option<Seq<char>>) -> Seq<char> {
    "{\"content\":\""@ + json_escape(content) + "\""@ + match thinking {
        Some(t) => ",\"thinking\":\""@ + json_escape(t) + "\""@,
        None => Seq::empty(),
    } + "}"@
}

/// The JSON answer to a message, with its content and reasoning.
pub fn reply_json(content: &str, thinking: Option<&str>) -> (r: String)
    ensures
        r@ == reply_json_text(
            content@,
            match thinking {
                Some(t) => Some(t@),
                None => None,
            },
        ),
{
    let mut out = String::from_str("{\"content\":\"");
    push_json_escaped_str(&mut out, content);
    out.append("\"");
    match thinking {
        Some(t) => {
            out.append(",\"thinking\":\"");
            push_json_escaped_str(&mut out, t);
            out.append("\"");
        },
        None => {},
    }
    out.append("}");
    proof {
        assert(out@ =~= reply_json_text(
            content@,
            match thinking {
                Some(t) => Some(t@),
                None => None,
            },
        ));
    }
    out
}

/// The error of a query on a session that has no provider.
pub fn no_provider_error() -> (r: ClaudeError)
    ensures
        r matches ClaudeError::ConfigError { message: m } && m@ == "No provider configured"@,
{
    ClaudeError::ConfigError { message: String::from_str("No provider configured") }
}

} // verus!
