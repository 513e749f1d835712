//! Measuring and compacting the context of a conversation.
use vstd::prelude::*;
use vstd::string::*;

use crate::conversation::ConversationEngine;
use crate::message::{Message, MessageView, Role, message_views};
use crate::text::{utf8_len, byte_len, decimal, usize_to_string, concat_strs, concat_seqs, seq_take_chars, take_chars};

verus! {

/// Estimated tokens of a message's content: a quarter of its UTF-8 bytes.
pub open spec fn content_tokens(m: MessageView) -> nat {
    utf8_len(m.content) / 4
}

/// Estimated tokens of a message's reasoning: a quarter of its UTF-8 bytes.
pub open spec fn thinking_tokens(m: MessageView) -> nat {
    match m.thinking {
        Some(t) => utf8_len(t) / 4,
        None => 0,
    }
}

/// Estimated tokens of messages, content and reasoning.
pub open spec fn tokens_of(s: Seq<MessageView>) -> nat
    decreases s.len(),
{
    if s.len() == 0 {
        0
    } else {
        tokens_of(s.drop_last()) + content_tokens(s.last()) + thinking_tokens(s.last())
    }
}

/// Estimated tokens of the contents of messages.
pub open spec fn content_tokens_of(s: Seq<MessageView>) -> nat
    decreases s.len(),
{
    if s.len() == 0 {
        0
    } else {
        content_tokens_of(s.drop_last()) + content_tokens(s.last())
    }
}

/// Number of messages with role `r`.
pub open spec fn count_role(s: Seq<MessageView>, r: Role) -> nat
    decreases s.len(),
{
    if s.len() == 0 {
        0
    } else {
        count_role(s.drop_last(), r) + if s.last().role == r {
            1nat
        } else {
            0nat
        }
    }
}

proof fn lemma_prefix_bounds(s: Seq<MessageView>, i: int)
    requires
        0 <= i <= s.len(),
    ensures
        tokens_of(s.take(i)) <= tokens_of(s),
        content_tokens_of(s.take(i)) <= content_tokens_of(s),
        content_tokens_of(s) <= tokens_of(s),
        count_role(s, Role::User) <= s.len(),
        count_role(s, Role::Assistant) <= s.len(),
        count_role(s, Role::System) <= s.len(),
        count_role(s, Role::ToolUse) <= s.len(),
        count_role(s, Role::ToolResult) <= s.len(),
    decreases s.len(),
{
    if s.len() > 0 {
        if i == s.len() {
            assert(s.take(i) =~= s);
            lemma_prefix_bounds(s.drop_last(), 0);
        } else {
            assert(s.take(i) =~= s.drop_last().take(i));
            lemma_prefix_bounds(s.drop_last(), i);
        }
    } else {
        assert(s.take(i) =~= s);
    }
}

/// The position after the first assistant message at which the contents so
/// far reach `target` tokens, scanning from position `i` with `acc` tokens
/// counted before it.
pub open spec fn boundary_from(s: Seq<MessageView>, i: int, acc: nat, target: nat) -> Option<int>
    decreases s.len() - i,
{
    if i < 0 || i >= s.len() {
        None
    } else {
        let a = acc + content_tokens(s[i]);
        if a >= target && s[i].role == Role::Assistant {
            Some(i + 1)
        } else {
            boundary_from(s, i + 1, a, target)
        }
    }
}

/// Where compaction cuts the context: after the first assistant message at
/// which the contents reach half the threshold, else at a quarter of the
/// messages.
pub open spec fn compact_boundary(s: Seq<MessageView>, threshold: nat) -> int {
    match boundary_from(s, 0, 0, threshold / 2) {
        Some(b) => b,
        None => (s.len() / 4) as int,
    }
}

proof fn lemma_boundary_bound(s: Seq<MessageView>, i: int, acc: nat, target: nat)
    ensures
        boundary_from(s, i, acc, target) matches Some(b) ==> 0 < b <= s.len(),
    decreases s.len() - i,
{
    if 0 <= i < s.len() {
        lemma_boundary_bound(s, i + 1, acc + content_tokens(s[i]), target);
    }
}

/// The summary that stands for compacted messages.
pub open spec fn summary_text(s: Seq<MessageView>) -> Seq<char> {
    if s.len() == 0 {
        "No previous context."@
    } else {
        "[Conversation Summary]\n"@ + "- "@ + decimal(count_role(s, Role::User)) + " user messages, "@
            + decimal(count_role(s, Role::Assistant)) + " assistant responses, "@ + decimal(
            count_role(s, Role::ToolUse),
        ) + " tool uses\n"@ + "- First topic: "@ + seq_take_chars(s[0].content, 200) + "\n"@
            + "- Last topic: "@ + seq_take_chars(s.last().content, 200) + "\n"@
            + "[End Summary - Continue from here]\n"@
    }
}

/// The system prompt for a context of `tokens` tokens.
pub open spec fn system_prompt_text(custom: Option<Seq<char>>, tokens: nat) -> Seq<char> {
    "You are a helpful AI assistant.\n\n"@ + match custom {
        Some(c) => c + "\n\n"@,
        None => Seq::empty(),
    } + "Current conversation context contains "@ + decimal(tokens) + " tokens.\n"@
        + "Be helpful, harmless, and honest in all interactions.\n"@
}

/// Counts of the messages of a conversation.
#[derive(Debug, Clone, Copy)]
pub struct ConversationStats {
    pub total_messages: usize,
    pub user_messages: usize,
    pub assistant_messages: usize,
    pub system_messages: usize,
    pub tool_uses: usize,
    pub tool_results: usize,
    pub total_tokens: usize,
    pub compact_summaries: usize,
}

/// What compaction does: the summary to store, the message it reaches up to,
/// and the position before which stored messages are dropped.
#[derive(Debug)]
pub struct CompactionPlan {
    pub boundary: usize,
    pub summary: String,
    pub boundary_message_id: String,
}

/// Measures and compacts conversation contexts.
pub struct ContextManager {
    conversation_engine: ConversationEngine,
}

impl ContextManager {
    /// The engine that reads the contexts.
    pub closed spec fn engine(&self) -> ConversationEngine {
        self.conversation_engine
    }

    /// A manager with a default engine.
    pub fn new() -> (r: ContextManager)
        ensures
            r.engine().max_context() == 100,
    {
        ContextManager { conversation_engine: ConversationEngine::new() }
    }

    /// The same manager with the given engine.
    pub fn with_conversation_engine(self, engine: ConversationEngine) -> (r: ContextManager)
        ensures
            r.engine() == engine,
    {
        ContextManager { conversation_engine: engine }
    }

    /// The engine that reads the contexts.
    pub fn conversation_engine(&self) -> (r: &ConversationEngine)
        ensures
            *r == self.engine(),
    {
        &self.conversation_engine
    }

    /// Estimated tokens of messages: a quarter of the UTF-8 bytes of each
    /// content plus a quarter of those of each reasoning.
    pub fn estimate_tokens(&self, messages: &[Message]) -> (r: usize)
        requires
            tokens_of(message_views(messages@)) <= usize::MAX,
        ensures
            r == tokens_of(message_views(messages@)),
    {
        let ghost s = message_views(messages@);
        let mut total: usize = 0;
        let mut i: usize = 0;
        while i < messages.len()
            invariant
                i <= messages@.len(),
                s == message_views(messages@),
                tokens_of(s) <= usize::MAX,
                total == tokens_of(s.take(i as int)),
            decreases messages.len() - i,
        {
            proof {
                assert(s.take(i as int + 1).drop_last() =~= s.take(i as int));
                lemma_prefix_bounds(s, i as int + 1);
                lemma_prefix_bounds(s.take(i as int + 1), i as int + 1);
                assert(s.take(i as int + 1).last() == messages@[i as int]@);
            }
            let m = &messages[i];
            total = total + byte_len(m.content.as_str()) / 4;
            match &m.thinking {
                Some(t) => {
                    total = total + byte_len(t.as_str()) / 4;
                },
                None => {},
            }
            i = i + 1;
        }
        assert(s.take(messages@.len() as int) =~= s);
        total
    }

    /// Where compaction cuts the messages for the given threshold.
    pub fn find_compact_boundary(&self, messages: &[Message], threshold: usize) -> (r: usize)
        requires
            content_tokens_of(message_views(messages@)) <= usize::MAX,
        ensures
            r == compact_boundary(message_views(messages@), threshold as nat),
    {
        let ghost s = message_views(messages@);
        let target = threshold / 2;
        let mut tokens: usize = 0;
        let mut i: usize = 0;
        while i < messages.len()
            invariant
                i <= messages@.len(),
                s == message_views(messages@),
                content_tokens_of(s) <= usize::MAX,
                target == threshold / 2,
                tokens == content_tokens_of(s.take(i as int)),
                boundary_from(s, 0, 0, target as nat) == boundary_from(s, i as int, tokens as nat, target as nat),
            decreases messages.len() - i,
        {
            proof {
                assert(s.take(i as int + 1).drop_last() =~= s.take(i as int));
                lemma_prefix_bounds(s, i as int + 1);
                lemma_prefix_bounds(s.take(i as int + 1), i as int + 1);
                assert(s[i as int] == messages@[i as int]@);
            }
            let m = &messages[i];
            tokens = tokens + byte_len(m.content.as_str()) / 4;
            if tokens >= target && m.role == Role::Assistant {
                return i + 1;
            }
            i = i + 1;
        }
        messages.len() / 4
    }

    /// The summary that stands for the given messages: the counts of user,
    /// assistant and tool-use messages and the first 200 characters of the
    /// first and last messages.
    pub fn generate_compact_summary(&self, messages: &[Message]) -> (r: String)
        ensures
            r@ == summary_text(message_views(messages@)),
    {
        let ghost s = message_views(messages@);
        if messages.len() == 0 {
            return String::from_str("No previous context.");
        }
        let mut users: usize = 0;
        let mut assistants: usize = 0;
        let mut tools: usize = 0;
        let mut i: usize = 0;
        while i < messages.len()
            invariant
                i <= messages@.len(),
                s == message_views(messages@),
                users == count_role(s.take(i as int), Role::User),
                assistants == count_role(s.take(i as int), Role::Assistant),
                tools == count_role(s.take(i as int), Role::ToolUse),
            decreases messages.len() - i,
        {
            proof {
                assert(s.take(i as int + 1).drop_last() =~= s.take(i as int));
                lemma_prefix_bounds(s.take(i as int + 1), 0);
                assert(s[i as int] == messages@[i as int]@);
            }
            match messages[i].role {
                Role::User => {
                    users = users + 1;
                },
                Role::Assistant => {
                    assistants = assistants + 1;
                },
                Role::ToolUse => {
                    tools = tools + 1;
                },
                _ => {},
            }
            i = i + 1;
        }
        assert(s.take(messages@.len() as int) =~= s);
        let u = usize_to_string(users);
        let a = usize_to_string(assistants);
        let t = usize_to_string(tools);
        let first = take_chars(messages[0].content.as_str(), 200);
        let last = take_chars(messages[messages.len() - 1].content.as_str(), 200);
        let r = concat_strs(
            &[
                "[Conversation Summary]\n",
                "- ",
                u.as_str(),
                " user messages, ",
                a.as_str(),
                " assistant responses, ",
                t.as_str(),
                " tool uses\n",
                "- First topic: ",
                first.as_str(),
                "\n",
                "- Last topic: ",
                last.as_str(),
                "\n",
                "[End Summary - Continue from here]\n",
            ],
        );
        proof {
            reveal_with_fuel(concat_seqs, 16);
        }
        r
    }

    /// The counts of the messages of a context; the token count covers the
    /// contents only, and no summary is counted.
    pub fn get_conversation_stats(&self, context: &[Message]) -> (r: ConversationStats)
        requires
            content_tokens_of(message_views(context@)) <= usize::MAX,
        ensures
            ({
                let s = message_views(context@);
                &&& r.total_messages == context@.len()
                &&& r.user_messages == count_role(s, Role::User)
                &&& r.assistant_messages == count_role(s, Role::Assistant)
                &&& r.system_messages == count_role(s, Role::System)
                &&& r.tool_uses == count_role(s, Role::ToolUse)
                &&& r.tool_results == count_role(s, Role::ToolResult)
                &&& r.total_tokens == content_tokens_of(s)
                &&& r.compact_summaries == 0
            }),
    {
        let ghost s = message_views(context@);
        let mut st = ConversationStats {
            total_messages: context.len(),
            user_messages: 0,
            assistant_messages: 0,
            system_messages: 0,
            tool_uses: 0,
            tool_results: 0,
            total_tokens: 0,
            compact_summaries: 0,
        };
        let mut i: usize = 0;
        while i < context.len()
            invariant
                i <= context@.len(),
                s == message_views(context@),
                content_tokens_of(s) <= usize::MAX,
                st.total_messages == context@.len(),
                st.compact_summaries == 0,
                st.user_messages == count_role(s.take(i as int), Role::User),
                st.assistant_messages == count_role(s.take(i as int), Role::Assistant),
                st.system_messages == count_role(s.take(i as int), Role::System),
                st.tool_uses == count_role(s.take(i as int), Role::ToolUse),
                st.tool_results == count_role(s.take(i as int), Role::ToolResult),
                st.total_tokens == content_tokens_of(s.take(i as int)),
            decreases context.len() - i,
        {
            proof {
                assert(s.take(i as int + 1).drop_last() =~= s.take(i as int));
                lemma_prefix_bounds(s, i as int + 1);
                lemma_prefix_bounds(s.take(i as int + 1), i as int + 1);
                assert(s[i as int] == context@[i as int]@);
            }
            let m = &context[i];
            st.total_tokens = st.total_tokens + byte_len(m.content.as_str()) / 4;
            match m.role {
                Role::User => {
                    st.user_messages = st.user_messages + 1;
                },
                Role::Assistant => {
                    st.assistant_messages = st.assistant_messages + 1;
                },
                Role::System => {
                    st.system_messages = st.system_messages + 1;
                },
                Role::ToolUse => {
                    st.tool_uses = st.tool_uses + 1;
                },
                Role::ToolResult => {
                    st.tool_results = st.tool_results + 1;
                },
            }
            i = i + 1;
        }
        assert(s.take(context@.len() as int) =~= s);
        st
    }

    /// The last `max` messages of a context (all of them without a limit).
    pub fn get_context_window(&self, context: Vec<Message>, max_messages: Option<usize>) -> (r: Vec<
        Message,
    >)
        ensures
            message_views(r@) == match max_messages {
                Some(m) => message_views(crate::conversation::last_n(context@, m as nat)),
                None => message_views(context@),
            },
    {
        match max_messages {
            Some(max) => {
                let n = context.len();
                if n <= max {
                    return context;
                }
                let mut c = context;
                let tail = c.split_off(n - max);
                assert(tail@ =~= crate::conversation::last_n(context@, max as nat));
                tail
            },
            None => context,
        }
    }

    /// The system prompt for a context of `token_count` tokens, with the
    /// custom instructions, if any, after the opening line.
    pub fn build_system_prompt(&self, custom_prompt: Option<&str>, token_count: usize) -> (r: String)
        ensures
            r@ == system_prompt_text(
                match custom_prompt {
                    Some(c) => Some(c@),
                    None => None,
                },
                token_count as nat,
            ),
    {
        let n = usize_to_string(token_count);
        let r = match custom_prompt {
            Some(c) => concat_strs(
                &[
                    "You are a helpful AI assistant.\n\n",
                    c,
                    "\n\n",
                    "Current conversation context contains ",
                    n.as_str(),
                    " tokens.\n",
                    "Be helpful, harmless, and honest in all interactions.\n",
                ],
            ),
            None => concat_strs(
                &[
                    "You are a helpful AI assistant.\n\n",
                    "Current conversation context contains ",
                    n.as_str(),
                    " tokens.\n",
                    "Be helpful, harmless, and honest in all interactions.\n",
                ],
            ),
        };
        proof {
            reveal_with_fuel(concat_seqs, 8);
        }
        r
    }

    /// The compaction of a context for `token_threshold`: nothing while the
    /// context stays under the threshold; otherwise the summary of the messages
    /// before the boundary, the id of the message at the boundary (empty when
    /// it has none) and the boundary.
    pub fn plan_compaction(&self, context: &[Message], token_threshold: usize) -> (r: Option<
        CompactionPlan,
    >)
        requires
            tokens_of(message_views(context@)) <= usize::MAX,
            tokens_of(message_views(context@)) >= token_threshold ==> compact_boundary(
                message_views(context@),
                token_threshold as nat,
            ) < context@.len(),
        ensures
            ({
                let s = message_views(context@);
                let b = compact_boundary(s, token_threshold as nat);
                if tokens_of(s) < token_threshold {
                    r is None
                } else {
                    &&& r is Some
                    &&& r->0.boundary == b
                    &&& r->0.summary@ == summary_text(s.take(b))
                    &&& r->0.boundary_message_id@ == match s[b].id {
                        Some(id) => id,
                        None => Seq::<char>::empty(),
                    }
                }
            }),
    {
        let total = self.estimate_tokens(context);
        if total < token_threshold {
            return None;
        }
        proof {
            lemma_prefix_bounds(message_views(context@), 0);
        }
        let b = self.find_compact_boundary(context, token_threshold);
        let before = &context[0..b];
        assert(before@ =~= context@.subrange(0, b as int));
        assert(message_views(before@) =~= message_views(context@).take(b as int));
        let summary = self.generate_compact_summary(before);
        let id = match &context[b].id {
            Some(id) => id.clone(),
            None => String::new(),
        };
        Some(CompactionPlan { boundary: b, summary, boundary_message_id: id })
    }
}

impl Default for ContextManager {
    fn default() -> (r: ContextManager)
        ensures
            r.engine().max_context() == 100,
    {
        ContextManager::new()
    }
}

/// The compaction boundary never lies past the end of the context.
pub proof fn law_boundary_within_context(s: Seq<MessageView>, threshold: nat)
    ensures
        0 <= compact_boundary(s, threshold) <= s.len(),
{
    lemma_boundary_bound(s, 0, 0, threshold / 2);
}

proof fn lemma_content_prefix_step(s: Seq<MessageView>, i: int)
    requires
        0 <= i < s.len(),
    ensures
        content_tokens_of(s.take(i + 1)) == content_tokens_of(s.take(i)) + content_tokens(s[i]),
{
    assert(s.take(i + 1).drop_last() =~= s.take(i));
    assert(s.take(i + 1).last() == s[i]);
}

proof fn lemma_boundary_scan(s: Seq<MessageView>, i: int, target: nat, k: int)
    requires
        0 <= i <= k < s.len(),
        s[k].role == Role::Assistant,
        content_tokens_of(s.take(k + 1)) >= target,
        forall|j: int|
            i <= j < k && s[j].role == Role::Assistant ==> content_tokens_of(#[trigger] s.take(j + 1))
                < target,
    ensures
        boundary_from(s, i, content_tokens_of(s.take(i)), target) == Some(k + 1),
    decreases k - i,
{
    lemma_content_prefix_step(s, i);
    if i < k {
        if s[i].role == Role::Assistant {
            assert(content_tokens_of(s.take(i + 1)) < target);
        }
        lemma_boundary_scan(s, i + 1, target, k);
    }
}

proof fn lemma_boundary_none(s: Seq<MessageView>, i: int, target: nat)
    requires
        0 <= i <= s.len(),
        forall|j: int|
            i <= j < s.len() && s[j].role == Role::Assistant ==> content_tokens_of(
                #[trigger] s.take(j + 1),
            ) < target,
    ensures
        boundary_from(s, i, content_tokens_of(s.take(i)), target) is None,
    decreases s.len() - i,
{
    if i < s.len() {
        lemma_content_prefix_step(s, i);
        if s[i].role == Role::Assistant {
            assert(content_tokens_of(s.take(i + 1)) < target);
        }
        lemma_boundary_none(s, i + 1, target);
    }
}

/// Compaction cuts right after the first assistant message at which the
/// tokens of all contents so far, from the start of the context, reach half
/// the threshold.
pub proof fn law_boundary_is_first_assistant_reaching_half(s: Seq<MessageView>, threshold: nat, k: int)
    requires
        0 <= k < s.len(),
        s[k].role == Role::Assistant,
        content_tokens_of(s.take(k + 1)) >= threshold / 2,
        forall|j: int|
            0 <= j < k && s[j].role == Role::Assistant ==> content_tokens_of(#[trigger] s.take(j + 1))
                < threshold / 2,
    ensures
        compact_boundary(s, threshold) == k + 1,
{
    assert(s.take(0) =~= Seq::<MessageView>::empty());
    lemma_boundary_scan(s, 0, threshold / 2, k);
}

/// When no assistant message is reached with half the threshold of tokens
/// counted from the start, compaction cuts at a quarter of the messages.
pub proof fn law_boundary_falls_back_to_a_quarter(s: Seq<MessageView>, threshold: nat)
    requires
        forall|j: int|
            0 <= j < s.len() && s[j].role == Role::Assistant ==> content_tokens_of(
                #[trigger] s.take(j + 1),
            ) < threshold / 2,
    ensures
        compact_boundary(s, threshold) == s.len() / 4,
{
    assert(s.take(0) =~= Seq::<MessageView>::empty());
    lemma_boundary_none(s, 0, threshold / 2);
}

/// The number of messages of role `r`, counted by filtering.
pub open spec fn with_role(s: Seq<MessageView>, r: Role) -> nat {
    s.filter(|m: MessageView| m.role == r).len()
}

proof fn lemma_count_role_filter(s: Seq<MessageView>, r: Role)
    ensures
        count_role(s, r) == with_role(s, r),
    decreases s.len(),
{
    reveal(Seq::filter);
    if s.len() > 0 {
        lemma_count_role_filter(s.drop_last(), r);
    }
}

/// The summary counts the user messages, the assistant messages and the
/// tool calls (messages of role `ToolUse` only: tool results, system messages
/// and the others are not counted), and quotes the first 200 characters of
/// the first and the last message.
pub proof fn law_summary_counts_roles(s: Seq<MessageView>)
    requires
        s.len() > 0,
    ensures
        summary_text(s) == "[Conversation Summary]\n"@ + "- "@ + decimal(with_role(s, Role::User))
            + " user messages, "@ + decimal(with_role(s, Role::Assistant)) + " assistant responses, "@
            + decimal(with_role(s, Role::ToolUse)) + " tool uses\n"@ + "- First topic: "@
            + seq_take_chars(s[0].content, 200) + "\n"@ + "- Last topic: "@ + seq_take_chars(
            s.last().content,
            200,
        ) + "\n"@ + "[End Summary - Continue from here]\n"@,
{
    lemma_count_role_filter(s, Role::User);
    lemma_count_role_filter(s, Role::Assistant);
    lemma_count_role_filter(s, Role::ToolUse);
}

/// A tool result, or a system message, added to the messages leaves every
/// count of the summary as it was; a tool call raises the tool count by one.
pub proof fn law_only_tool_calls_count_as_tool_uses(s: Seq<MessageView>, m: MessageView)
    ensures
        m.role == Role::ToolResult || m.role == Role::System ==> {
            &&& with_role(s.push(m), Role::User) == with_role(s, Role::User)
            &&& with_role(s.push(m), Role::Assistant) == with_role(s, Role::Assistant)
            &&& with_role(s.push(m), Role::ToolUse) == with_role(s, Role::ToolUse)
        },
        m.role == Role::ToolUse ==> with_role(s.push(m), Role::ToolUse) == with_role(s, Role::ToolUse)
            + 1,
{
    reveal(Seq::filter);
    assert(s.push(m).drop_last() =~= s);
}

/// The token estimate of two runs of messages is the sum of their
/// estimates, and that of one message is a quarter of the UTF-8 bytes of its
/// content plus a quarter of those of its reasoning, each rounded down.
pub proof fn law_token_estimate_additive(a: Seq<MessageView>, b: Seq<MessageView>)
    ensures
        tokens_of(a + b) == tokens_of(a) + tokens_of(b),
        a.len() == 1 ==> tokens_of(a) == utf8_len(a[0].content) / 4 + match a[0].thinking {
            Some(t) => utf8_len(t) / 4,
            None => 0,
        },
    decreases b.len(),
{
    if a.len() == 1 {
        assert(a.drop_last() =~= Seq::<MessageView>::empty());
        assert(tokens_of(a.drop_last()) == 0);
        assert(a.last() == a[0]);
        assert(tokens_of(a) == tokens_of(a.drop_last()) + content_tokens(a.last()) + thinking_tokens(
            a.last(),
        ));
    }
    if b.len() == 0 {
        assert(a + b =~= a);
    } else {
        assert((a + b).drop_last() =~= a + b.drop_last());
        law_token_estimate_additive(a, b.drop_last());
    }
}

/// The stats count every message exactly once.
pub proof fn law_stats_partition_messages(s: Seq<MessageView>)
    ensures
        count_role(s, Role::User) + count_role(s, Role::Assistant) + count_role(s, Role::System)
            + count_role(s, Role::ToolUse) + count_role(s, Role::ToolResult) == s.len(),
    decreases s.len(),
{
    if s.len() > 0 {
        law_stats_partition_messages(s.drop_last());
    }
}

} // verus!
