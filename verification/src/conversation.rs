//! Turning stored messages into the context of a conversation, and the
//! records that a conversation stores.
use vstd::prelude::*;
use vstd::string::*;

use crate::error::ClaudeError;
use crate::json::{json_parse, parse_json};
use crate::message::{Message, MessageView, Role, role_from_text, role_text, opt_text, message_views, is_plain_message};
use crate::schema::MessageEntity;
use crate::text::clone_opt_string;

verus! {

/// The message that a stored message reads back as: its role by name (an
/// unknown name reads as `User`), its tool input parsed as JSON (dropped when
/// it is not JSON) and its id.
pub open spec fn entity_view(e: MessageEntity) -> MessageView {
    MessageView {
        role: role_from_text(e.role@),
        content: e.content@,
        name: opt_text(e.name),
        tool_call_id: opt_text(e.tool_call_id),
        tool_name: opt_text(e.tool_name),
        tool_input: match e.tool_input {
            Some(s) => json_parse(s@),
            None => None,
        },
        thinking: opt_text(e.thinking),
        thinking_signature: opt_text(e.thinking_signature),
        timestamp: e.timestamp,
        id: Some(e.id@),
    }
}

/// The messages that stored messages read back as.
pub open spec fn entity_views(s: Seq<MessageEntity>) -> Seq<MessageView> {
    s.map_values(|e: MessageEntity| entity_view(e))
}

/// The system message that a stored compaction summary stands as.
pub open spec fn summary_view(e: MessageEntity) -> MessageView {
    MessageView {
        role: Role::System,
        content: e.content@,
        name: None,
        tool_call_id: None,
        tool_name: None,
        tool_input: None,
        thinking: None,
        thinking_signature: None,
        timestamp: e.timestamp,
        id: Some(e.id@),
    }
}

/// The stored messages placed after position `idx` of the order.
pub open spec fn rows_after(rows: Seq<MessageEntity>, idx: i32) -> Seq<MessageEntity>
    decreases rows.len(),
{
    if rows.len() == 0 {
        Seq::empty()
    } else if rows.last().order_index > idx {
        rows_after(rows.drop_last(), idx).push(rows.last())
    } else {
        rows_after(rows.drop_last(), idx)
    }
}

/// The last `n` elements of `s` (all of `s` when it is shorter).
pub open spec fn last_n<T>(s: Seq<T>, n: nat) -> Seq<T> {
    if s.len() <= n {
        s
    } else {
        s.subrange(s.len() - n, s.len() as int)
    }
}

/// The context of a conversation: without compaction summaries, the stored
/// messages given (the latest ones); with summaries, each summary as a system
/// message, then the last `max` of the messages placed after the last summary.
pub open spec fn context_view(summaries: Seq<MessageEntity>, rows: Seq<MessageEntity>, max: nat) -> Seq<
    MessageView,
> {
    if summaries.len() == 0 {
        entity_views(rows)
    } else {
        summaries.map_values(|e: MessageEntity| summary_view(e)) + entity_views(
            last_n(rows_after(rows, summaries.last().order_index), max),
        )
    }
}

/// A copy of a stored message.
pub fn clone_entity(e: &MessageEntity) -> (r: MessageEntity)
    ensures
        r == *e,
{
    MessageEntity {
        id: e.id.clone(),
        session_id: e.session_id.clone(),
        parent_uuid: clone_opt_string(&e.parent_uuid),
        role: e.role.clone(),
        content: e.content.clone(),
        name: clone_opt_string(&e.name),
        tool_call_id: clone_opt_string(&e.tool_call_id),
        tool_name: clone_opt_string(&e.tool_name),
        tool_input: clone_opt_string(&e.tool_input),
        thinking: clone_opt_string(&e.thinking),
        thinking_signature: clone_opt_string(&e.thinking_signature),
        timestamp: e.timestamp,
        is_compact_summary: e.is_compact_summary,
        compact_boundary: clone_opt_string(&e.compact_boundary),
        order_index: e.order_index,
    }
}

/// The message that a stored message reads back as.
pub fn entity_to_message(e: &MessageEntity) -> (r: Message)
    ensures
        r@ == entity_view(*e),
{
    let tool_input = match &e.tool_input {
        Some(s) => parse_json(s.as_str()),
        None => None,
    };
    Message {
        role: Role::from_name(e.role.as_str()),
        content: e.content.clone(),
        name: clone_opt_string(&e.name),
        tool_call_id: clone_opt_string(&e.tool_call_id),
        tool_name: clone_opt_string(&e.tool_name),
        tool_input,
        thinking: clone_opt_string(&e.thinking),
        thinking_signature: clone_opt_string(&e.thinking_signature),
        timestamp: e.timestamp,
        id: Some(e.id.clone()),
    }
}

/// The messages that stored messages read back as, in order.
pub fn history_from_entities(rows: &Vec<MessageEntity>) -> (r: Vec<Message>)
    ensures
        message_views(r@) == entity_views(rows@),
{
    let mut out: Vec<Message> = Vec::new();
    let mut i: usize = 0;
    while i < rows.len()
        invariant
            i <= rows@.len(),
            out@.len() == i,
            forall|j: int| 0 <= j < i ==> (#[trigger] out@[j])@ == entity_view(rows@[j]),
        decreases rows.len() - i,
    {
        out.push(entity_to_message(&rows[i]));
        i = i + 1;
    }
    assert(message_views(out@) =~= entity_views(rows@));
    out
}

/// Builds and reads the records of a conversation.
pub struct ConversationEngine {
    max_context_messages: usize,
}

impl ConversationEngine {
    /// The greatest number of recent messages that a context holds.
    pub closed spec fn max_context(&self) -> usize {
        self.max_context_messages
    }

    /// An engine whose contexts hold at most 100 recent messages.
    pub fn new() -> (r: ConversationEngine)
        ensures
            r.max_context() == 100,
    {
        ConversationEngine { max_context_messages: 100 }
    }

    /// The same engine with contexts of at most `max` recent messages.
    pub fn with_max_context(self, max: usize) -> (r: ConversationEngine)
        ensures
            r.max_context() == max,
    {
        let mut e = self;
        e.max_context_messages = max;
        e
    }

    /// The limit to ask the store for when there is no compaction summary
    /// (the limit as a 32-bit number, wrapping as `as` does).
    pub fn context_limit(&self) -> (r: i32)
        ensures
            r == self.max_context() as i32,
    {
        self.max_context_messages as i32
    }

    /// The context of a conversation from its stored compaction summaries (in
    /// order) and its stored messages: without summaries, the messages given;
    /// with summaries, the summaries as system messages followed by the last
    /// `max_context` messages placed after the last summary.
    pub fn build_context(&self, summaries: &Vec<MessageEntity>, rows: &Vec<MessageEntity>) -> (r:
        Vec<Message>)
        ensures
            message_views(r@) == context_view(summaries@, rows@, self.max_context() as nat),
    {
        if summaries.len() == 0 {
            return history_from_entities(rows);
        }
        let mut out: Vec<Message> = Vec::new();
        let mut i: usize = 0;
        while i < summaries.len()
            invariant
                i <= summaries@.len(),
                out@.len() == i,
                forall|j: int| 0 <= j < i ==> (#[trigger] out@[j])@ == summary_view(summaries@[j]),
            decreases summaries.len() - i,
        {
            let s = &summaries[i];
            out.push(
                Message {
                    role: Role::System,
                    content: s.content.clone(),
                    name: None,
                    tool_call_id: None,
                    tool_name: None,
                    tool_input: None,
                    thinking: None,
                    thinking_signature: None,
                    timestamp: s.timestamp,
                    id: Some(s.id.clone()),
                },
            );
            i = i + 1;
        }
        assert(message_views(out@) =~= summaries@.map_values(|e: MessageEntity| summary_view(e)));
        let last_index = summaries[summaries.len() - 1].order_index;
        let mut filtered: Vec<MessageEntity> = Vec::new();
        let mut j: usize = 0;
        while j < rows.len()
            invariant
                j <= rows@.len(),
                filtered@ == rows_after(rows@.take(j as int), last_index),
            decreases rows.len() - j,
        {
            assert(rows@.take(j as int + 1).drop_last() =~= rows@.take(j as int));
            if rows[j].order_index > last_index {
                filtered.push(clone_entity(&rows[j]));
            }
            j = j + 1;
        }
        assert(rows@.take(rows@.len() as int) =~= rows@);
        let n = filtered.len();
        let start = if n > self.max_context_messages {
            n - self.max_context_messages
        } else {
            0
        };
        let ghost tail = last_n(filtered@, self.max_context_messages as nat);
        assert(tail =~= filtered@.subrange(start as int, n as int));
        let ghost head = message_views(out@);
        let ghost m = out@.len();
        let mut k: usize = start;
        while k < n
            invariant
                start <= k <= n,
                n == filtered@.len(),
                tail == filtered@.subrange(start as int, n as int),
                out@.len() == m + (k - start),
                head.len() == m,
                forall|j: int| 0 <= j < m ==> (#[trigger] out@[j])@ == head[j],
                forall|j: int|
                    m <= j < m + (k - start) ==> (#[trigger] out@[j])@ == entity_view(
                        filtered@[j - m + start],
                    ),
            decreases n - k,
        {
            out.push(entity_to_message(&filtered[k]));
            k = k + 1;
        }
        assert(message_views(out@) =~= head + entity_views(tail));
        out
    }

    /// The messages to send: the system prompt, if any, as a system message,
    /// then the context.
    pub fn build_api_messages(&self, context: &[Message], system_prompt: Option<&str>) -> (r: Result<
        Vec<Message>,
        ClaudeError,
    >)
        ensures
            r matches Ok(v) && match system_prompt {
                Some(p) => v@.len() == context@.len() + 1 && is_plain_message(v@[0]@, Role::System, p@)
                    && message_views(v@.drop_first()) == message_views(context@),
                None => message_views(v@) == message_views(context@),
            },
    {
        let mut messages: Vec<Message> = Vec::new();
        let offset: usize = match system_prompt {
            Some(p) => {
                messages.push(Message::system(p));
                1
            },
            None => 0,
        };
        let ghost first = messages@;
        let mut i: usize = 0;
        while i < context.len()
            invariant
                i <= context@.len(),
                messages@.len() == offset + i,
                offset == if system_prompt is Some {
                    1usize
                } else {
                    0usize
                },
                first.len() == offset,
                forall|j: int| 0 <= j < offset ==> messages@[j] == first[j],
                system_prompt matches Some(p) ==> is_plain_message(first[0]@, Role::System, p@),
                forall|j: int| 0 <= j < i ==> (#[trigger] messages@[offset + j])@ == context@[j]@,
            decreases context.len() - i,
        {
            messages.push(context[i].clone());
            i = i + 1;
        }
        match system_prompt {
            Some(p) => {
                assert forall|j: int| 0 <= j < context@.len() implies (#[trigger] messages@.drop_first()[j])@
                    == context@[j]@ by {
                    assert(messages@.drop_first()[j] == messages@[1 + j]);
                }
                assert(message_views(messages@.drop_first()) =~= message_views(context@));
            },
            None => {
                assert forall|j: int| 0 <= j < context@.len() implies (#[trigger] messages@[j])@
                    == context@[j]@ by {
                    assert(messages@[0 + j] == messages@[j]);
                }
                assert(message_views(messages@) =~= message_views(context@));
            },
        }
        Ok(messages)
    }
}

impl Default for ConversationEngine {
    fn default() -> (r: ConversationEngine)
        ensures
            r.max_context() == 100,
    {
        ConversationEngine::new()
    }
}

/// The id of the last message, the parent of the next one.
pub fn last_message_id(messages: &[Message]) -> (r: Option<String>)
    ensures
        opt_text(r) == if messages@.len() > 0 {
            opt_text(messages@.last().id)
        } else {
            None
        },
{
    if messages.len() == 0 {
        None
    } else {
        clone_opt_string(&messages[messages.len() - 1].id)
    }
}

/// The position of the next message after the last stored position `latest`
/// (`-1` when the session has no message yet).
pub fn next_order_index(latest: i32) -> (r: i32)
    requires
        latest < i32::MAX,
    ensures
        r == latest + 1,
{
    latest + 1
}

/// The record of a message of a session, with its id, parent, role, content,
/// reasoning, time and position.
pub fn stored_message(
    id: &str,
    session_id: &str,
    parent_uuid: Option<String>,
    role: Role,
    content: &str,
    thinking: Option<&str>,
    timestamp: i64,
    order_index: i32,
) -> (r: MessageEntity)
    ensures
        r.id@ == id@,
        r.session_id@ == session_id@,
        r.parent_uuid == parent_uuid,
        r.role@ == role_text(role),
        r.content@ == content@,
        r.name is None,
        r.tool_call_id is None,
        r.tool_name is None,
        r.tool_input is None,
        opt_text(r.thinking) == match thinking {
            Some(t) => Some(t@),
            None => None,
        },
        r.thinking_signature is None,
        r.timestamp == timestamp,
        !r.is_compact_summary,
        r.compact_boundary is None,
        r.order_index == order_index,
{
    MessageEntity {
        id: String::from_str(id),
        session_id: String::from_str(session_id),
        parent_uuid,
        role: String::from_str(role.as_str()),
        content: String::from_str(content),
        name: None,
        tool_call_id: None,
        tool_name: None,
        tool_input: None,
        thinking: crate::text::opt_str_to_string(thinking),
        thinking_signature: None,
        timestamp,
        is_compact_summary: false,
        compact_boundary: None,
        order_index,
    }
}

/// The record of a compaction summary: a system message marked as a summary
/// that covers the messages up to `boundary_message_id`.
pub fn compact_summary_record(
    id: &str,
    session_id: &str,
    parent_uuid: Option<String>,
    summary: &str,
    boundary_message_id: &str,
    timestamp: i64,
    order_index: i32,
) -> (r: MessageEntity)
    ensures
        r.id@ == id@,
        r.session_id@ == session_id@,
        r.parent_uuid == parent_uuid,
        r.role@ == role_text(Role::System),
        r.content@ == summary@,
        r.is_compact_summary,
        opt_text(r.compact_boundary) == Some(boundary_message_id@),
        r.timestamp == timestamp,
        r.order_index == order_index,
        r.thinking is None,
        r.tool_input is None,
{
    MessageEntity {
        id: String::from_str(id),
        session_id: String::from_str(session_id),
        parent_uuid,
        role: String::from_str(Role::System.as_str()),
        content: String::from_str(summary),
        name: None,
        tool_call_id: None,
        tool_name: None,
        tool_input: None,
        thinking: None,
        thinking_signature: None,
        timestamp,
        is_compact_summary: true,
        compact_boundary: Some(String::from_str(boundary_message_id)),
        order_index,
    }
}

/// The message kept in a session for a stored message: its role, content,
/// reasoning, time and id.
pub fn recorded_message(role: Role, content: &str, thinking: Option<&str>, id: &str, timestamp: i64) -> (r:
    Message)
    ensures
        r@.role == role,
        r@.content == content@,
        r@.thinking == match thinking {
            Some(t) => Some(t@),
            None => None,
        },
        r@.id == Some(id@),
        r@.timestamp == timestamp,
        r@.name is None,
        r@.tool_call_id is None,
        r@.tool_name is None,
        r@.tool_input is None,
        r@.thinking_signature is None,
{
    Message {
        role,
        content: String::from_str(content),
        name: None,
        tool_call_id: None,
        tool_name: None,
        tool_input: None,
        thinking: crate::text::opt_str_to_string(thinking),
        thinking_signature: None,
        timestamp,
        id: Some(String::from_str(id)),
    }
}

/// A message stored by the conversation reads back with the role, content,
/// reasoning, time and id it was stored with.
pub proof fn law_stored_message_reads_back(
    e: MessageEntity,
    role: Role,
    content: Seq<char>,
    thinking: Option<Seq<char>>,
)
    requires
        e.role@ == role_text(role),
        e.content@ == content,
        opt_text(e.thinking) == thinking,
        e.tool_input is None,
    ensures
        entity_view(e).role == role,
        entity_view(e).content == content,
        entity_view(e).thinking == thinking,
        entity_view(e).id == Some(e.id@),
        entity_view(e).timestamp == e.timestamp,
        entity_view(e).tool_input is None,
{
    crate::message::law_role_name_round_trip(role);
}

/// A context never holds more recent messages than the limit, beyond its
/// summaries.
pub proof fn law_context_bounded(summaries: Seq<MessageEntity>, rows: Seq<MessageEntity>, max: nat)
    requires
        summaries.len() > 0,
    ensures
        context_view(summaries, rows, max).len() <= summaries.len() + max,
{
}

} // verus!
