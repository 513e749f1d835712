//! Decoding of server-sent-event streams into response chunks.
use vstd::prelude::*;
use vstd::string::*;

use crate::common::{data_prefix, done_marker, data_prefix_str, done_marker_str};
use crate::json::{json_parse, json_member, json_first_element, json_text, parse_json};
use crate::text::{seq_has_prefix, seq_strip_prefix};

verus! {

/// A piece of a tool call that arrives in a stream.
#[derive(Debug)]
pub struct ToolCallDelta {
    pub id: String,
    pub name: String,
    pub input_delta: String,
}

/// A piece of a streamed response.
#[derive(Debug)]
pub struct StreamChunk {
    pub content: String,
    pub is_complete: bool,
    pub tool_call: Option<ToolCallDelta>,
}

/// The content of a chunk.
pub struct ChunkView {
    pub content: Seq<char>,
    pub is_complete: bool,
    pub tool_call: Option<(Seq<char>, Seq<char>, Seq<char>)>,
}

impl View for StreamChunk {
    type V = ChunkView;

    open spec fn view(&self) -> ChunkView {
        ChunkView {
            content: self.content@,
            is_complete: self.is_complete,
            tool_call: match self.tool_call {
                Some(t) => Some((t.id@, t.name@, t.input_delta@)),
                None => None,
            },
        }
    }
}

/// The view of an optional chunk.
pub open spec fn opt_chunk_view(c: Option<StreamChunk>) -> Option<ChunkView> {
    match c {
        Some(x) => Some(x@),
        None => None,
    }
}

/// A text chunk.
pub open spec fn text_chunk(content: Seq<char>, is_complete: bool) -> ChunkView {
    ChunkView { content, is_complete, tool_call: None }
}

impl StreamChunk {
    /// A chunk of text.
    pub fn new_text(content: &str, is_complete: bool) -> (r: StreamChunk)
        ensures
            r@ == text_chunk(content@, is_complete),
    {
        StreamChunk { content: String::from_str(content), is_complete, tool_call: None }
    }

    /// A chunk that carries a piece of a tool call, with empty text.
    pub fn new_tool_call(id: &str, name: &str, input_delta: &str, is_complete: bool) -> (r:
        StreamChunk)
        ensures
            r@ == (ChunkView {
                content: Seq::empty(),
                is_complete,
                tool_call: Some((id@, name@, input_delta@)),
            }),
    {
        StreamChunk {
            content: String::new(),
            is_complete,
            tool_call: Some(
                ToolCallDelta {
                    id: String::from_str(id),
                    name: String::from_str(name),
                    input_delta: String::from_str(input_delta),
                },
            ),
        }
    }
}

/// The chunk that the data of one event gives: the end marker completes the
/// stream; a JSON payload gives the text of `choices[0].delta.content`, else
/// of `choices[0].text`, else of `content`; anything else gives nothing.
pub open spec fn event_chunk(data: Seq<char>) -> Option<ChunkView> {
    if data.len() == 0 {
        None
    } else if data == done_marker() {
        Some(text_chunk(Seq::empty(), true))
    } else {
        match json_parse(data) {
            None => None,
            Some(j) => {
                let first = json_first_element(json_member(Some(j), "choices"@));
                let delta_content = json_text(json_member(json_member(first, "delta"@), "content"@));
                let text = json_text(json_member(first, "text"@));
                let content = json_text(json_member(Some(j), "content"@));
                if delta_content is Some {
                    Some(text_chunk(delta_content->0, false))
                } else if text is Some {
                    Some(text_chunk(text->0, false))
                } else if content is Some {
                    Some(text_chunk(content->0, false))
                } else {
                    None
                }
            },
        }
    }
}

/// `event: `, the prefix of an event-type line.
pub open spec fn event_prefix() -> Seq<char> {
    seq!['e', 'v', 'e', 'n', 't', ':', ' ']
}

/// `data:`, the prefix of a data line without a space.
pub open spec fn bare_data_prefix() -> Seq<char> {
    seq!['d', 'a', 't', 'a', ':']
}

/// The state of a parser: the event type and the data gathered so far.
pub struct ParserView {
    pub event_type: Option<Seq<char>>,
    pub data: Seq<char>,
}

/// The state of a parser before any line, and after each blank line.
pub open spec fn parser_initial() -> ParserView {
    ParserView { event_type: None, data: Seq::empty() }
}

/// The state after one line: a blank line ends the event; `data: ` and
/// `data:` lines add their text to the data; an `event: ` line sets the event
/// type; comments (`:`) and other lines change nothing.
pub open spec fn sse_next_state(p: ParserView, line: Seq<char>) -> ParserView {
    if line.len() == 0 {
        parser_initial()
    } else if seq_has_prefix(line, data_prefix()) {
        ParserView { data: p.data + seq_strip_prefix(line, data_prefix())->0, ..p }
    } else if seq_has_prefix(line, event_prefix()) {
        ParserView { event_type: Some(seq_strip_prefix(line, event_prefix())->0), ..p }
    } else if seq_has_prefix(line, seq![':']) {
        p
    } else if seq_has_prefix(line, bare_data_prefix()) {
        ParserView { data: p.data + seq_strip_prefix(line, bare_data_prefix())->0, ..p }
    } else {
        p
    }
}

/// The chunk that one line gives: only a blank line gives one, from the data
/// of the event that it ends.
pub open spec fn sse_line_output(p: ParserView, line: Seq<char>) -> Option<ChunkView> {
    if line.len() == 0 {
        event_chunk(p.data)
    } else {
        None
    }
}

/// A line-by-line parser of a server-sent-event stream.
pub struct SSEParser {
    event_type: Option<String>,
    data_buffer: String,
}

impl View for SSEParser {
    type V = ParserView;

    closed spec fn view(&self) -> ParserView {
        ParserView {
            event_type: crate::message::opt_text(self.event_type),
            data: self.data_buffer@,
        }
    }
}

impl SSEParser {
    /// A parser in its initial state.
    pub fn new() -> (r: SSEParser)
        ensures
            r@ == parser_initial(),
    {
        SSEParser { event_type: None, data_buffer: String::new() }
    }

    /// Takes one line of the stream (without its line ending) and returns the
    /// chunk that it completes, if any.
    pub fn parse_line(&mut self, line: &str) -> (r: Option<StreamChunk>)
        ensures
            final(self)@ == sse_next_state(old(self)@, line@),
            opt_chunk_view(r) == sse_line_output(old(self)@, line@),
    {
        proof {
            reveal_strlit(":");
            reveal_strlit("event: ");
            reveal_strlit("data:");
            assert(":"@ =~= seq![':']);
            assert("event: "@ =~= event_prefix());
            assert("data:"@ =~= bare_data_prefix());
        }
        if line.is_empty() {
            let chunk = self.flush_event();
            self.event_type = None;
            self.data_buffer = String::new();
            return chunk;
        }
        if let Some(data) = crate::text::strip_prefix(line, data_prefix_str()) {
            self.data_buffer.append(data);
        } else if let Some(event) = crate::text::strip_prefix(line, "event: ") {
            self.event_type = Some(String::from_str(event));
        } else if crate::text::has_prefix(line, ":") {
        } else if let Some(data) = crate::text::strip_prefix(line, "data:") {
            self.data_buffer.append(data);
        }
        None
    }

    /// The chunk that the gathered data gives.
    fn flush_event(&self) -> (r: Option<StreamChunk>)
        ensures
            opt_chunk_view(r) == event_chunk(self@.data),
    {
        if self.data_buffer.as_str().is_empty() {
            return None;
        }
        let data = self.data_buffer.as_str();
        proof {
            reveal_strlit("");
            assert(""@ =~= Seq::<char>::empty());
        }
        if crate::text::str_eq(data, done_marker_str()) {
            return Some(StreamChunk::new_text("", true));
        }
        match parse_json(data) {
            Some(json) => {
                let first = match json.get("choices") {
                    Some(choices) => choices.first_element(),
                    None => None,
                };
                if let Some(first_choice) = first {
                    if let Some(delta) = first_choice.get("delta") {
                        if let Some(content) = delta.get("content") {
                            if let Some(s) = content.as_str() {
                                return Some(StreamChunk::new_text(s.as_str(), false));
                            }
                        }
                    }
                    if let Some(text) = first_choice.get("text") {
                        if let Some(s) = text.as_str() {
                            return Some(StreamChunk::new_text(s.as_str(), false));
                        }
                    }
                }
                if let Some(content) = json.get("content") {
                    if let Some(s) = content.as_str() {
                        return Some(StreamChunk::new_text(s.as_str(), false));
                    }
                }
                None
            },
            None => None,
        }
    }
}

impl Default for SSEParser {
    fn default() -> (r: SSEParser)
        ensures
            r@ == parser_initial(),
    {
        SSEParser::new()
    }
}

/// A blank line ends the event: the parser returns to its initial state, and
/// only a blank line ever yields a chunk.
pub proof fn law_blank_line_ends_event(p: ParserView, line: Seq<char>)
    ensures
        sse_next_state(p, Seq::empty()) == parser_initial(),
        line.len() > 0 ==> sse_line_output(p, line) is None,
{
}

/// Data lines of one event are joined: after `data: a` and `data: b`, the
/// blank line yields the chunk of the data `a + b`.
pub proof fn law_data_lines_accumulate(p: ParserView, a: Seq<char>, b: Seq<char>)
    requires
        p == parser_initial(),
    ensures
        sse_line_output(
            sse_next_state(sse_next_state(p, data_prefix() + a), data_prefix() + b),
            Seq::empty(),
        ) == event_chunk(a + b),
{
    let l1 = data_prefix() + a;
    let l2 = data_prefix() + b;
    assert(l1.subrange(0, 6) =~= data_prefix());
    assert(l1.subrange(6, l1.len() as int) =~= a);
    assert(l2.subrange(0, 6) =~= data_prefix());
    assert(l2.subrange(6, l2.len() as int) =~= b);
    assert(Seq::<char>::empty() + a =~= a);
}

/// The end marker completes the stream with no text.
pub proof fn law_done_marker_completes(p: ParserView)
    requires
        p.data == done_marker(),
    ensures
        sse_line_output(p, Seq::empty()) == Some(text_chunk(Seq::empty(), true)),
{
}

/// Only the end marker completes a stream: the data of any other event gives
/// no chunk or a chunk that leaves the stream open, and the end marker gives
/// the empty chunk that completes it. So a parser yields a completing chunk
/// only at the blank line after `data: [DONE]`.
pub proof fn law_only_done_completes(data: Seq<char>, p: ParserView, line: Seq<char>)
    ensures
        data != done_marker() ==> match event_chunk(data) {
            Some(c) => !c.is_complete,
            None => true,
        },
        event_chunk(done_marker()) == Some(
            ChunkView { content: Seq::<char>::empty(), is_complete: true, tool_call: None },
        ),
        (sse_line_output(p, line) matches Some(c) && c.is_complete) ==> line.len() == 0 && p.data
            == done_marker(),
{
}

/// `s` without its trailing carriage returns and line feeds.
pub open spec fn trim_line_end_spec(s: Seq<char>) -> Seq<char>
    decreases s.len(),
{
    if s.len() > 0 && (s.last() == '\r' || s.last() == '\n') {
        trim_line_end_spec(s.drop_last())
    } else {
        s
    }
}

/// A line without its trailing carriage returns and line feeds.
pub fn trim_line_end(line: &str) -> (r: &str)
    ensures
        r@ == trim_line_end_spec(line@),
{
    let n = line.unicode_len();
    let mut end = n;
    assert(line@.subrange(0, n as int) =~= line@);
    while end > 0 && (line.get_char(end - 1) == '\r' || line.get_char(end - 1) == '\n')
        invariant
            end <= n,
            n == line@.len(),
            trim_line_end_spec(line@) == trim_line_end_spec(line@.subrange(0, end as int)),
        decreases end,
    {
        assert(line@.subrange(0, end as int).drop_last() =~= line@.subrange(0, end as int - 1));
        end = end - 1;
    }
    assert(line@.subrange(0, n as int) =~= line@);
    line.substring_char(0, end)
}

/// What the reader of a stream does with one line: the text to hand to the
/// caller and whether the stream is over.
pub struct LineOutcome {
    pub emit: Option<String>,
    pub done: bool,
}

/// The state of a stream reader: the parser and the response gathered so far.
pub struct StreamCollector {
    pub parser: SSEParser,
    pub full_response: String,
}

/// The text that a chunk hands to the caller: its content when not empty.
pub open spec fn chunk_emit(c: Option<ChunkView>) -> Option<Seq<char>> {
    match c {
        Some(x) => if x.content.len() > 0 {
            Some(x.content)
        } else {
            None
        },
        None => None,
    }
}

/// Whether a chunk ends the stream.
pub open spec fn chunk_done(c: Option<ChunkView>) -> bool {
    match c {
        Some(x) => x.is_complete,
        None => false,
    }
}

impl StreamCollector {
    /// A reader with a fresh parser and no response yet.
    pub fn new() -> (r: StreamCollector)
        ensures
            r.parser@ == parser_initial(),
            r.full_response@ == Seq::<char>::empty(),
    {
        StreamCollector { parser: SSEParser::new(), full_response: String::new() }
    }

    /// Takes one raw line (line ending included or not): parses it, adds the
    /// text of a completed chunk to the response, and says what to hand to
    /// the caller and whether the stream is over.
    pub fn push_line(&mut self, raw_line: &str) -> (r: LineOutcome)
        ensures
            ({
                let line = trim_line_end_spec(raw_line@);
                let out = sse_line_output(old(self).parser@, line);
                &&& final(self).parser@ == sse_next_state(old(self).parser@, line)
                &&& crate::message::opt_text(r.emit) == chunk_emit(out)
                &&& r.done == chunk_done(out)
                &&& final(self).full_response@ == old(self).full_response@ + match chunk_emit(out) {
                    Some(t) => t,
                    None => Seq::empty(),
                }
            }),
    {
        let line = trim_line_end(raw_line);
        match self.parser.parse_line(line) {
            Some(chunk) => {
                let done = chunk.is_complete;
                if !chunk.content.as_str().is_empty() {
                    self.full_response.append(chunk.content.as_str());
                    LineOutcome { emit: Some(chunk.content), done }
                } else {
                    assert(self.full_response@ =~= old(self).full_response@ + Seq::<char>::empty());
                    LineOutcome { emit: None, done }
                }
            },
            None => {
                assert(self.full_response@ =~= old(self).full_response@ + Seq::<char>::empty());
                LineOutcome { emit: None, done: false }
            },
        }
    }
}

} // verus!
