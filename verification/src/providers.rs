//! What is sent to the model providers and what is made of their answers:
//! endpoints, responses, balances and the decoding of their streams.
use vstd::prelude::*;
use vstd::string::*;

use crate::common::{data_prefix, done_marker, data_prefix_str, done_marker_str};
use crate::error::ClaudeError;
use crate::json_text::{json_escape, is_control, read_json_string_body, push_json_escaped_str, law_json_escape_reads_back};
use crate::message::opt_text;
use crate::text::{seq_strip_prefix, concat_strs, concat_seqs};

verus! {

/// The answer of a provider to a chat request.
#[derive(Debug)]
pub struct ModelResponse {
    pub id: String,
    pub content: String,
    pub thinking: Option<String>,
    pub model: String,
    pub usage: Usage,
    pub stop_reason: Option<String>,
}

/// Tokens used by a request.
#[derive(Debug, Clone, Copy)]
pub struct Usage {
    pub input_tokens: u64,
    pub output_tokens: u64,
}

/// A model offered by a provider.
#[derive(Debug)]
pub struct ModelInfo {
    pub id: String,
    pub name: Option<String>,
    pub owned_by: Option<String>,
    pub context_length: Option<u64>,
}

/// The balance of an account at a provider.
#[derive(Debug)]
pub struct BalanceInfo {
    pub is_available: bool,
    pub total_balance: Option<String>,
    pub currency: Option<String>,
}

/// Limits of a provider.
#[derive(Debug, Clone, Copy)]
pub struct RateLimitConfig {
    pub requests_per_minute: u32,
    pub tokens_per_minute: u32,
}

/// The settings of a provider.
#[derive(Debug)]
pub struct ProviderConfig {
    pub name: String,
    pub api_key: String,
    pub base_url: String,
    pub default_model: String,
    pub supported_models: Vec<String>,
    pub rate_limit: Option<RateLimitConfig>,
}

/// Where and how requests to a provider are sent.
#[derive(Debug)]
pub struct ProviderEndpoint {
    pub name: &'static str,
    pub api_key: String,
    pub base_url: String,
}

/// The base URL to use: the given one, else the provider's default.
pub open spec fn chosen_base_url(base_url: Option<String>, default: Seq<char>) -> Seq<char> {
    match base_url {
        Some(u) => u@,
        None => default,
    }
}

impl ProviderEndpoint {
    /// The DeepSeek endpoint, at `https://api.deepseek.com` unless another base URL is given.
    pub fn deepseek(api_key: &str, base_url: Option<String>) -> (r: ProviderEndpoint)
        ensures
            r.name@ == "deepseek"@,
            r.api_key@ == api_key@,
            r.base_url@ == chosen_base_url(base_url, "https://api.deepseek.com"@),
    {
        ProviderEndpoint {
            name: "deepseek",
            api_key: String::from_str(api_key),
            base_url: match base_url {
                Some(u) => u,
                None => String::from_str("https://api.deepseek.com"),
            },
        }
    }

    /// The SiliconFlow endpoint, at `https://api.siliconflow.cn/v1` unless
    /// another base URL is given.
    pub fn siliconflow(api_key: &str, base_url: Option<String>) -> (r: ProviderEndpoint)
        ensures
            r.name@ == "siliconflow"@,
            r.api_key@ == api_key@,
            r.base_url@ == chosen_base_url(base_url, "https://api.siliconflow.cn/v1"@),
    {
        ProviderEndpoint {
            name: "siliconflow",
            api_key: String::from_str(api_key),
            base_url: match base_url {
                Some(u) => u,
                None => String::from_str("https://api.siliconflow.cn/v1"),
            },
        }
    }

    /// `<base>/chat/completions`.
    pub fn chat_url(&self) -> (r: String)
        ensures
            r@ == self.base_url@ + "/chat/completions"@,
    {
        let r = concat_strs(&[self.base_url.as_str(), "/chat/completions"]);
        proof {
            reveal_with_fuel(concat_seqs, 3);
        }
        r
    }

    /// `<base>/models`.
    pub fn models_url(&self) -> (r: String)
        ensures
            r@ == self.base_url@ + "/models"@,
    {
        let r = concat_strs(&[self.base_url.as_str(), "/models"]);
        proof {
            reveal_with_fuel(concat_seqs, 3);
        }
        r
    }

    /// The balance URL: `<base>/user/balance` for DeepSeek, `<base>/user/info` otherwise.
    pub fn balance_url(&self) -> (r: String)
        ensures
            r@ == self.base_url@ + if self.name@ == "deepseek"@ {
                "/user/balance"@
            } else {
                "/user/info"@
            },
    {
        let path = if crate::text::str_eq(self.name, "deepseek") {
            "/user/balance"
        } else {
            "/user/info"
        };
        let r = concat_strs(&[self.base_url.as_str(), path]);
        proof {
            reveal_with_fuel(concat_seqs, 3);
        }
        r
    }

    /// The value of the `Authorization` header: `Bearer <api key>`.
    pub fn bearer(&self) -> (r: String)
        ensures
            r@ == "Bearer "@ + self.api_key@,
    {
        let r = concat_strs(&["Bearer ", self.api_key.as_str()]);
        proof {
            reveal_with_fuel(concat_seqs, 3);
        }
        r
    }
}

/// The error for an unsuccessful HTTP status: `HTTP <status> - <body>`, or
/// `HTTP <status>` when the body is not reported.
pub fn http_error(provider: &str, status: &str, body: Option<&str>) -> (r: ClaudeError)
    ensures
        r matches ClaudeError::ApiError { provider: p, message: m } && p@ == provider@ && m@ == match body {
            Some(b) => "HTTP "@ + status@ + " - "@ + b@,
            None => "HTTP "@ + status@,
        },
{
    let message = match body {
        Some(b) => concat_strs(&["HTTP ", status, " - ", b]),
        None => concat_strs(&["HTTP ", status]),
    };
    proof {
        reveal_with_fuel(concat_seqs, 5);
    }
    ClaudeError::ApiError { provider: String::from_str(provider), message }
}

/// One choice of an answer or of a stream event, as the provider sent it.
#[derive(Debug)]
pub struct ChoiceData {
    pub content: Option<String>,
    pub reasoning_content: Option<String>,
    pub finish_reason: Option<String>,
}

/// The response that a DeepSeek answer gives: the first choice's content (empty
/// when absent), reasoning and finish reason; an answer without choices is an
/// error.
pub fn deepseek_response(
    id: String,
    model: String,
    choices: Vec<ChoiceData>,
    usage: Usage,
) -> (r: Result<ModelResponse, ClaudeError>)
    ensures
        choices@.len() == 0 ==> (r matches Err(ClaudeError::ApiError { provider: p, message: m })
            && p@ == "deepseek"@ && m@ == "No choices in response"@),
        choices@.len() > 0 ==> (r matches Ok(resp) && resp.id == id && resp.model == model
            && resp.usage == usage && resp.content@ == match choices@[0].content {
            Some(c) => c@,
            None => Seq::<char>::empty(),
        } && opt_text(resp.thinking) == opt_text(choices@[0].reasoning_content) && opt_text(
            resp.stop_reason,
        ) == opt_text(choices@[0].finish_reason)),
{
    if choices.len() == 0 {
        return Err(
            ClaudeError::ApiError {
                provider: String::from_str("deepseek"),
                message: String::from_str("No choices in response"),
            },
        );
    }
    let first = &choices[0];
    let content = match &first.content {
        Some(c) => c.clone(),
        None => String::new(),
    };
    Ok(
        ModelResponse {
            id,
            content,
            thinking: crate::text::clone_opt_string(&first.reasoning_content),
            model,
            usage,
            stop_reason: crate::text::clone_opt_string(&first.finish_reason),
        },
    )
}

/// The response that a SiliconFlow answer gives: the first choice's content
/// and finish reason, empty content and no finish reason without choices.
pub fn siliconflow_response(
    id: String,
    model: String,
    choices: Vec<ChoiceData>,
    usage: Usage,
) -> (r: ModelResponse)
    ensures
        r.id == id,
        r.model == model,
        r.usage == usage,
        r.thinking is None,
        r.content@ == if choices@.len() > 0 {
            match choices@[0].content {
                Some(c) => c@,
                None => Seq::<char>::empty(),
            }
        } else {
            Seq::<char>::empty()
        },
        opt_text(r.stop_reason) == if choices@.len() > 0 {
            opt_text(choices@[0].finish_reason)
        } else {
            None
        },
{
    let (content, stop_reason) = if choices.len() > 0 {
        let c = match &choices[0].content {
            Some(c) => c.clone(),
            None => String::new(),
        };
        (c, crate::text::clone_opt_string(&choices[0].finish_reason))
    } else {
        (String::new(), None)
    };
    ModelResponse { id, content, thinking: None, model, usage, stop_reason }
}

/// The balance that a DeepSeek answer gives: availability as reported, amount
/// and currency of the first balance entry.
pub fn deepseek_balance(is_available: bool, infos: Vec<(String, String)>) -> (r: BalanceInfo)
    ensures
        r.is_available == is_available,
        opt_text(r.currency) == if infos@.len() > 0 {
            Some(infos@[0].0@)
        } else {
            None
        },
        opt_text(r.total_balance) == if infos@.len() > 0 {
            Some(infos@[0].1@)
        } else {
            None
        },
{
    if infos.len() > 0 {
        BalanceInfo {
            is_available,
            total_balance: Some(infos[0].1.clone()),
            currency: Some(infos[0].0.clone()),
        }
    } else {
        BalanceInfo { is_available, total_balance: None, currency: None }
    }
}

/// The balance that a SiliconFlow answer gives: the total balance, else the
/// charged balance, else the balance; always available, in CNY.
pub fn siliconflow_balance(balance: String, charge_balance: Option<String>, total_balance: Option<
    String,
>) -> (r: BalanceInfo)
    ensures
        r.is_available,
        opt_text(r.currency) == Some("CNY"@),
        opt_text(r.total_balance) == Some(
            match total_balance {
                Some(t) => t@,
                None => match charge_balance {
                    Some(c) => c@,
                    None => balance@,
                },
            },
        ),
{
    let chosen = match total_balance {
        Some(t) => t,
        None => match charge_balance {
            Some(c) => c,
            None => balance,
        },
    };
    BalanceInfo {
        is_available: true,
        total_balance: Some(chosen),
        currency: Some(String::from_str("CNY")),
    }
}

/// `c` has the Unicode White_Space property.
pub open spec fn is_white_space(c: char) -> bool {
    ||| ('\u{9}' <= c && c <= '\u{d}')
    ||| c == ' '
    ||| c == '\u{85}'
    ||| c == '\u{a0}'
    ||| c == '\u{1680}'
    ||| ('\u{2000}' <= c && c <= '\u{200a}')
    ||| c == '\u{2028}'
    ||| c == '\u{2029}'
    ||| c == '\u{202f}'
    ||| c == '\u{205f}'
    ||| c == '\u{3000}'
}

/// `s` without its leading white space.
pub open spec fn trim_start_ws(s: Seq<char>) -> Seq<char>
    decreases s.len(),
{
    if s.len() > 0 && is_white_space(s[0]) {
        trim_start_ws(s.drop_first())
    } else {
        s
    }
}

/// `s` without its trailing white space.
pub open spec fn trim_end_ws(s: Seq<char>) -> Seq<char>
    decreases s.len(),
{
    if s.len() > 0 && is_white_space(s.last()) {
        trim_end_ws(s.drop_last())
    } else {
        s
    }
}

/// `s` without leading and trailing white space.
pub open spec fn trim_ws_spec(s: Seq<char>) -> Seq<char> {
    trim_end_ws(trim_start_ws(s))
}

/// `str::trim`: removes leading and trailing characters that have the
/// Unicode White_Space property.
#[verifier::external_body]
pub(crate) fn trim_ws(s: &str) -> (r: &str)
    ensures
        r@ == trim_ws_spec(s@),
{
    s.trim()
}

/// What `String::from_utf8_lossy` gives for a byte sequence.
pub uninterp spec fn utf8_lossy(bytes: Seq<u8>) -> Seq<char>;

/// `String::from_utf8_lossy`: decodes UTF-8, each invalid sequence becoming
/// U+FFFD; on valid UTF-8 it is the plain decoding.
#[verifier::external_body]
pub(crate) fn decode_utf8_lossy(bytes: &[u8]) -> (r: String)
    ensures
        r@ == utf8_lossy(bytes@),
        vstd::utf8::valid_utf8(bytes@) ==> r@ == vstd::utf8::decode_utf8(bytes@),
{
    String::from_utf8_lossy(bytes).into_owned()
}

/// `String::from_utf8`: the text of valid UTF-8 bytes, `None` otherwise.
#[verifier::external_body]
pub(crate) fn decode_utf8_strict(bytes: Vec<u8>) -> (r: Option<String>)
    ensures
        r is Some <==> vstd::utf8::valid_utf8(bytes@),
        r matches Some(s) ==> s@ == vstd::utf8::decode_utf8(bytes@),
{
    String::from_utf8(bytes).ok()
}

/// A line of a stream, as far as the reader cares.
#[derive(Debug)]
pub enum StreamLine {
    /// The end marker.
    Done,
    /// The JSON payload of a data line.
    Payload(String),
    /// Anything else.
    Ignore,
}

/// What a DeepSeek stream line is: a `data: ` line whose trimmed payload is
/// `[DONE]` ends the stream, another `data: ` line carries its trimmed payload.
pub open spec fn deepseek_line_kind(line: Seq<char>) -> Option<Option<Seq<char>>> {
    match seq_strip_prefix(line, data_prefix()) {
        Some(rest) => if trim_ws_spec(rest) == done_marker() {
            Some(None)
        } else {
            Some(Some(trim_ws_spec(rest)))
        },
        None => None,
    }
}

/// The kind of a line in the notation of `deepseek_line_kind`.
pub open spec fn stream_line_kind(l: StreamLine) -> Option<Option<Seq<char>>> {
    match l {
        StreamLine::Done => Some(None),
        StreamLine::Payload(p) => Some(Some(p@)),
        StreamLine::Ignore => None,
    }
}

/// Classifies a (trimmed) line of a DeepSeek stream.
pub fn deepseek_stream_line(line: &str) -> (r: StreamLine)
    ensures
        stream_line_kind(r) == deepseek_line_kind(line@),
{
    match crate::text::strip_prefix(line, data_prefix_str()) {
        Some(rest) => {
            let data = trim_ws(rest);
            if crate::text::str_eq(data, done_marker_str()) {
                StreamLine::Done
            } else {
                StreamLine::Payload(String::from_str(data))
            }
        },
        None => StreamLine::Ignore,
    }
}

/// What a SiliconFlow stream chunk is: text that is valid UTF-8 and starts
/// with `data: `; its rest is `[DONE]` or a payload.
pub open spec fn siliconflow_chunk_kind(bytes: Seq<u8>) -> Option<Option<Seq<char>>> {
    if vstd::utf8::valid_utf8(bytes) {
        match seq_strip_prefix(vstd::utf8::decode_utf8(bytes), data_prefix()) {
            Some(rest) => if rest == done_marker() {
                Some(None)
            } else {
                Some(Some(rest))
            },
            None => None,
        }
    } else {
        None
    }
}

/// Classifies one network chunk of a SiliconFlow stream.
pub fn siliconflow_stream_chunk(bytes: Vec<u8>) -> (r: StreamLine)
    ensures
        stream_line_kind(r) == siliconflow_chunk_kind(bytes@),
{
    match decode_utf8_strict(bytes) {
        Some(line) => match crate::text::strip_prefix(line.as_str(), data_prefix_str()) {
            Some(rest) => {
                if crate::text::str_eq(rest, done_marker_str()) {
                    StreamLine::Done
                } else {
                    StreamLine::Payload(String::from_str(rest))
                }
            },
            None => StreamLine::Ignore,
        },
        None => StreamLine::Ignore,
    }
}

/// A stream event of a chat completion, as the provider sent it.
#[derive(Debug)]
pub struct StreamEvent {
    pub choices: Option<Vec<ChoiceData>>,
}

/// The kind of a piece handed to the caller of a stream.
#[derive(Debug, Clone, Copy, PartialEq, Eq, Structural)]
pub enum OutputKind {
    Content,
    Thinking,
    Error,
}

impl OutputKind {
    /// `content`, `thinking` or `error`.
    pub fn wire_name(&self) -> (r: &'static str)
        ensures
            r@ == kind_name(*self),
    {
        match self {
            OutputKind::Content => "content",
            OutputKind::Thinking => "thinking",
            OutputKind::Error => "error",
        }
    }
}

/// The wire name of a kind: `content`, `thinking` or `error`.
pub open spec fn kind_name(k: OutputKind) -> Seq<char> {
    match k {
        OutputKind::Content => "content"@,
        OutputKind::Thinking => "thinking"@,
        OutputKind::Error => "error"@,
    }
}

/// A piece handed to the caller of a stream.
#[derive(Debug)]
pub struct StreamOutput {
    pub kind: OutputKind,
    pub content: String,
}

/// The JSON chunk of a piece, with its members in sorted order as
/// serde_json writes a map: `{"content":"<text>","type":"<kind>"}`, the text
/// written as the body of a JSON string.
pub open spec fn chunk_json_text(kind: OutputKind, content: Seq<char>) -> Seq<char> {
    "{\"content\":\""@ + json_escape(content) + "\",\"type\":\""@ + kind_name(kind) + "\"}"@
}

impl StreamOutput {
    /// The JSON chunk handed to the caller for this piece.
    pub fn to_json(&self) -> (r: String)
        ensures
            r@ == chunk_json_text(self.kind, self.content@),
    {
        let mut out = String::from_str("{\"content\":\"");
        push_json_escaped_str(&mut out, self.content.as_str());
        out.append("\",\"type\":\"");
        out.append(self.kind.wire_name());
        out.append("\"}");
        out
    }
}

/// A chunk is JSON whose members read back: after `{"content":"` comes a
/// JSON string body, with no raw control character, that reads as the text
/// and is closed by a quote, followed by `,"type":"<kind>"}`.
pub proof fn law_chunk_json_reads_back(kind: OutputKind, content: Seq<char>)
    ensures
        ({
            let prefix = "{\"content\":\""@;
            let t = chunk_json_text(kind, content);
            let body = t.subrange(prefix.len() as int, t.len() as int);
            let rest = ",\"type\":\""@ + kind_name(kind) + "\"}"@;
            &&& t.subrange(0, prefix.len() as int) == prefix
            &&& forall|i: int| 0 <= i < json_escape(content).len() ==> !is_control(#[trigger] body[i])
            &&& read_json_string_body(body) == Some((content, rest))
        }),
{
    reveal_strlit("\",\"type\":\"");
    reveal_strlit(",\"type\":\"");
    let prefix = "{\"content\":\""@;
    let t = chunk_json_text(kind, content);
    let rest = ",\"type\":\""@ + kind_name(kind) + "\"}"@;
    assert("\",\"type\":\""@ + kind_name(kind) + "\"}"@ =~= seq!['"'] + rest);
    assert(t.subrange(0, prefix.len() as int) =~= prefix);
    let body = t.subrange(prefix.len() as int, t.len() as int);
    assert(body =~= json_escape(content) + seq!['"'] + rest);
    law_json_escape_reads_back(content, rest);
    assert forall|i: int| 0 <= i < json_escape(content).len() implies !is_control(#[trigger] body[i]) by {
        assert(body[i] == json_escape(content)[i]);
    }
}

/// What one event of a DeepSeek stream produces.
pub struct EventStep {
    pub outputs: Vec<StreamOutput>,
    pub error: Option<ClaudeError>,
}

/// The first choice of an event.
pub open spec fn event_first_choice(ev: StreamEvent) -> Option<ChoiceData> {
    match ev.choices {
        Some(cs) => if cs@.len() > 0 {
            Some(cs@[0])
        } else {
            None
        },
        None => None,
    }
}

/// The choice ends the stream with an error: its finish reason is `error` or `length`.
pub open spec fn choice_fails(c: ChoiceData) -> bool {
    match c.finish_reason {
        Some(f) => f@ == "error"@ || f@ == "length"@,
        None => false,
    }
}

/// The message of a failed choice: its content, else `Stream ended unexpectedly`.
pub open spec fn failure_message(c: ChoiceData) -> Seq<char> {
    match c.content {
        Some(t) => t@,
        None => "Stream ended unexpectedly"@,
    }
}

/// The kinds and texts of some outputs.
pub open spec fn outputs_view(o: Seq<StreamOutput>) -> Seq<(OutputKind, Seq<char>)> {
    o.map_values(|x: StreamOutput| (x.kind, x.content@))
}

/// The outputs of a choice that does not fail: its content, then its reasoning.
pub open spec fn choice_outputs(c: ChoiceData) -> Seq<(OutputKind, Seq<char>)> {
    (match c.content {
        Some(t) => seq![(OutputKind::Content, t@)],
        None => Seq::empty(),
    }) + (match c.reasoning_content {
        Some(t) => seq![(OutputKind::Thinking, t@)],
        None => Seq::empty(),
    })
}

/// The pieces that one event of a DeepSeek stream hands out: for a first
/// choice that fails, its error; for another first choice, its content then
/// its reasoning; for an error report, its message; nothing otherwise.
pub open spec fn step_outputs(event: Option<StreamEvent>, err: Option<Seq<char>>) -> Seq<(OutputKind, Seq<char>)> {
    match event {
        Some(ev) => match event_first_choice(ev) {
            Some(c) => if choice_fails(c) {
                seq![(OutputKind::Error, failure_message(c))]
            } else {
                choice_outputs(c)
            },
            None => Seq::empty(),
        },
        None => match err {
            Some(m) => seq![(OutputKind::Error, m)],
            None => Seq::empty(),
        },
    }
}

/// Whether an event ends a DeepSeek stream with an error.
pub open spec fn step_stops(event: Option<StreamEvent>, err: Option<Seq<char>>) -> bool {
    match event {
        Some(ev) => match event_first_choice(ev) {
            Some(c) => choice_fails(c),
            None => false,
        },
        None => err is Some,
    }
}

/// The response text that an event adds: the content of its first choice.
pub open spec fn step_text(event: Option<StreamEvent>) -> Seq<char> {
    match event {
        Some(ev) => match event_first_choice(ev) {
            Some(c) => match c.content {
                Some(t) => t@,
                None => Seq::empty(),
            },
            None => Seq::empty(),
        },
        None => Seq::empty(),
    }
}

/// Only a finish reason of `error` or `length` ends a DeepSeek stream with an
/// error. A first choice that finishes otherwise (`stop`, any other reason,
/// or none) hands out its content, then its reasoning, adds its content to
/// the response and lets the stream go on; one that finishes with `error` or
/// `length` hands out only an error piece, whose text is its content or
/// `Stream ended unexpectedly`, and adds nothing.
pub proof fn law_only_error_or_length_fails(ev: StreamEvent, err: Option<Seq<char>>)
    requires
        event_first_choice(ev) is Some,
    ensures
        ({
            let c = event_first_choice(ev)->0;
            let content = match c.content {
                Some(t) => t@,
                None => Seq::<char>::empty(),
            };
            let normal = match c.finish_reason {
                Some(f) => f@ != "error"@ && f@ != "length"@,
                None => true,
            };
            &&& normal ==> !step_stops(Some(ev), err)
            &&& normal ==> step_outputs(Some(ev), err) == (match c.content {
                Some(t) => seq![(OutputKind::Content, t@)],
                None => Seq::empty(),
            }) + (match c.reasoning_content {
                Some(t) => seq![(OutputKind::Thinking, t@)],
                None => Seq::empty(),
            })
            &&& step_text(Some(ev)) == content
            &&& !normal ==> step_stops(Some(ev), err)
            &&& !normal ==> step_outputs(Some(ev), err) == seq![
                (
                    OutputKind::Error,
                    match c.content {
                        Some(t) => t@,
                        None => "Stream ended unexpectedly"@,
                    },
                ),
            ]
        }),
{
}

/// What a DeepSeek stream gives for its (decoded, trimmed) lines, each data
/// payload read by `parse` into an event or an error report: the pieces
/// handed out in order, the response text, and whether it stopped on an
/// error. It ends at the end marker, at an event that fails, or with the
/// lines.
pub open spec fn deepseek_lines_result(
    lines: Seq<Seq<char>>,
    parse: spec_fn(Seq<char>) -> (Option<StreamEvent>, Option<Seq<char>>),
) -> (Seq<(OutputKind, Seq<char>)>, Seq<char>, bool)
    decreases lines.len(),
{
    if lines.len() == 0 {
        (Seq::empty(), Seq::empty(), false)
    } else {
        match deepseek_line_kind(lines[0]) {
            Some(None) => (Seq::empty(), Seq::empty(), false),
            Some(Some(p)) => {
                let (ev, err) = parse(p);
                if step_stops(ev, err) {
                    (step_outputs(ev, err), Seq::empty(), true)
                } else {
                    let rest = deepseek_lines_result(lines.drop_first(), parse);
                    (step_outputs(ev, err) + rest.0, step_text(ev) + rest.1, rest.2)
                }
            },
            None => deepseek_lines_result(lines.drop_first(), parse),
        }
    }
}

/// The text lines that the decoder makes of raw lines: decoded (invalid
/// UTF-8 replaced) and trimmed.
pub open spec fn decoded_lines(raw: Seq<Seq<u8>>) -> Seq<Seq<char>> {
    raw.map_values(|b: Seq<u8>| trim_ws_spec(utf8_lossy(b)))
}

/// However the body of a DeepSeek stream is cut into network chunks, the
/// pieces handed out, the response text and the outcome are those of the
/// lines of the whole body.
pub proof fn law_deepseek_stream_independent_of_chunks(
    chunks: Seq<Seq<u8>>,
    parse: spec_fn(Seq<char>) -> (Option<StreamEvent>, Option<Seq<char>>),
)
    ensures
        deepseek_lines_result(decoded_lines(lines_of_chunks(Seq::empty(), chunks)), parse)
            == deepseek_lines_result(decoded_lines(split_lines(chunks.flatten()).0), parse),
{
    law_chunking_keeps_lines(Seq::empty(), chunks);
    assert(Seq::<u8>::empty() + chunks.flatten() =~= chunks.flatten());
}

/// Decoder of a DeepSeek stream: splits the bytes into lines and turns the
/// events into outputs, gathering the response text.
pub struct DeepSeekStream {
    buffer: Vec<u8>,
    full_response: String,
}

/// `i` is the position of the first line feed of `b`.
pub open spec fn first_newline_at(b: Seq<u8>, i: int) -> bool {
    0 <= i < b.len() && b[i] == 10u8 && forall|j: int| 0 <= j < i ==> b[j] != 10u8
}

/// `b` holds no line feed.
pub open spec fn no_newline(b: Seq<u8>) -> bool {
    forall|j: int| 0 <= j < b.len() ==> b[j] != 10u8
}

/// The position of the first line feed of `b`.
pub open spec fn newline_index(b: Seq<u8>) -> Option<int>
    decreases b.len(),
{
    if b.len() == 0 {
        None
    } else if b[0] == 10u8 {
        Some(0)
    } else {
        match newline_index(b.drop_first()) {
            Some(i) => Some(i + 1),
            None => None,
        }
    }
}

/// `newline_index` gives the first line feed, or says there is none.
pub proof fn lemma_newline_index(b: Seq<u8>)
    ensures
        match newline_index(b) {
            Some(i) => first_newline_at(b, i),
            None => no_newline(b),
        },
    decreases b.len(),
{
    if b.len() > 0 && b[0] != 10u8 {
        lemma_newline_index(b.drop_first());
        match newline_index(b.drop_first()) {
            Some(i) => {
                assert forall|j: int| 0 <= j < i + 1 implies b[j] != 10u8 by {
                    if j > 0 {
                        assert(b[j] == b.drop_first()[j - 1]);
                    }
                }
            },
            None => {
                assert forall|j: int| 0 <= j < b.len() implies b[j] != 10u8 by {
                    if j > 0 {
                        assert(b[j] == b.drop_first()[j - 1]);
                    }
                }
            },
        }
    }
}

proof fn lemma_first_newline_unique(b: Seq<u8>, i: int)
    requires
        first_newline_at(b, i),
    ensures
        newline_index(b) == Some(i),
{
    lemma_newline_index(b);
    match newline_index(b) {
        Some(k) => {
            assert(!(k < i));
            assert(!(i < k));
        },
        None => {
            assert(b[i] == 10u8);
        },
    }
}

proof fn lemma_newline_index_append(b1: Seq<u8>, b2: Seq<u8>)
    requires
        newline_index(b1) is Some,
    ensures
        newline_index(b1 + b2) == newline_index(b1),
{
    lemma_newline_index(b1);
    let i = newline_index(b1)->0;
    assert forall|j: int| 0 <= j < i implies (b1 + b2)[j] != 10u8 by {
        assert((b1 + b2)[j] == b1[j]);
    }
    assert((b1 + b2)[i] == b1[i]);
    lemma_first_newline_unique(b1 + b2, i);
}

/// The complete lines of `b` (the bytes before each line feed, in order)
/// and the bytes after its last line feed.
pub open spec fn split_lines(b: Seq<u8>) -> (Seq<Seq<u8>>, Seq<u8>)
    decreases b.len(),
{
    match newline_index(b) {
        Some(i) => {
            proof {
                lemma_newline_index(b);
            }
            let rest = split_lines(b.subrange(i + 1, b.len() as int));
            (seq![b.subrange(0, i)] + rest.0, rest.1)
        },
        None => (Seq::empty(), b),
    }
}

proof fn lemma_split_rest_has_no_newline(b: Seq<u8>)
    ensures
        no_newline(split_lines(b).1),
    decreases b.len(),
{
    lemma_newline_index(b);
    match newline_index(b) {
        Some(i) => {
            lemma_split_rest_has_no_newline(b.subrange(i + 1, b.len() as int));
        },
        None => {},
    }
}

/// The lines do not depend on where the bytes were cut: splitting `b1`,
/// then splitting what was left of it followed by `b2`, gives the lines of
/// `b1 + b2`, in order, and the same bytes left over.
pub proof fn law_lines_independent_of_cuts(b1: Seq<u8>, b2: Seq<u8>)
    ensures
        split_lines(b1).0 + split_lines(split_lines(b1).1 + b2).0 == split_lines(b1 + b2).0,
        split_lines(split_lines(b1).1 + b2).1 == split_lines(b1 + b2).1,
    decreases b1.len(),
{
    lemma_newline_index(b1);
    match newline_index(b1) {
        Some(i) => {
            lemma_newline_index_append(b1, b2);
            let t1 = b1.subrange(i + 1, b1.len() as int);
            law_lines_independent_of_cuts(t1, b2);
            assert((b1 + b2).subrange(i + 1, (b1 + b2).len() as int) =~= t1 + b2);
            assert((b1 + b2).subrange(0, i) =~= b1.subrange(0, i));
            let l1 = split_lines(t1).0;
            let l2 = split_lines(split_lines(t1).1 + b2).0;
            assert(seq![b1.subrange(0, i)] + l1 + l2 =~= seq![b1.subrange(0, i)] + (l1 + l2));
        },
        None => {
            assert(split_lines(b1).0 + split_lines(b1 + b2).0 =~= split_lines(b1 + b2).0);
        },
    }
}

/// The lines that a decoder hands out when the body arrives in `chunks`,
/// starting with `pending` bytes and taking every complete line after each
/// chunk.
pub open spec fn lines_of_chunks(pending: Seq<u8>, chunks: Seq<Seq<u8>>) -> Seq<Seq<u8>>
    decreases chunks.len(),
{
    if chunks.len() == 0 {
        Seq::empty()
    } else {
        let s = split_lines(pending + chunks[0]);
        s.0 + lines_of_chunks(s.1, chunks.drop_first())
    }
}

/// However the body is cut into chunks, the decoder hands out the lines of
/// the whole body, in order.
pub proof fn law_chunking_keeps_lines(pending: Seq<u8>, chunks: Seq<Seq<u8>>)
    requires
        no_newline(pending),
    ensures
        lines_of_chunks(pending, chunks) == split_lines(pending + chunks.flatten()).0,
    decreases chunks.len(),
{
    lemma_newline_index(pending);
    if chunks.len() == 0 {
        assert(pending + chunks.flatten() =~= pending);
        if newline_index(pending) is Some {
            let i = newline_index(pending)->0;
            assert(pending[i] == 10u8);
        }
    } else {
        let b1 = pending + chunks[0];
        let s = split_lines(b1);
        lemma_split_rest_has_no_newline(b1);
        law_chunking_keeps_lines(s.1, chunks.drop_first());
        law_lines_independent_of_cuts(b1, chunks.drop_first().flatten());
        assert(chunks.flatten() == chunks[0] + chunks.drop_first().flatten());
        assert(pending + chunks.flatten() =~= b1 + chunks.drop_first().flatten());
    }
}

impl DeepSeekStream {
    /// The bytes received and not yet split into lines.
    pub closed spec fn pending(&self) -> Seq<u8> {
        self.buffer@
    }

    /// The response text gathered so far.
    pub closed spec fn response(&self) -> Seq<char> {
        self.full_response@
    }

    /// A decoder with nothing received.
    pub fn new() -> (r: DeepSeekStream)
        ensures
            r.pending() == Seq::<u8>::empty(),
            r.response() == Seq::<char>::empty(),
    {
        DeepSeekStream { buffer: Vec::new(), full_response: String::new() }
    }

    /// Adds received bytes.
    pub fn push_bytes(&mut self, bytes: &[u8])
        ensures
            final(self).pending() == old(self).pending() + bytes@,
            final(self).response() == old(self).response(),
    {
        let mut i: usize = 0;
        while i < bytes.len()
            invariant
                i <= bytes@.len(),
                self.buffer@ == old(self).buffer@ + bytes@.take(i as int),
                self.full_response == old(self).full_response,
            decreases bytes.len() - i,
        {
            self.buffer.push(bytes[i]);
            i = i + 1;
            assert(self.buffer@ =~= old(self).buffer@ + bytes@.take(i as int));
        }
        assert(bytes@.take(bytes@.len() as int) =~= bytes@);
    }

    /// Takes the next complete line: the bytes before the first line feed,
    /// decoded (invalid UTF-8 replaced) and trimmed; they and the line feed
    /// leave the pending bytes. `None` while no line feed has arrived.
    pub fn next_line(&mut self) -> (r: Option<String>)
        ensures
            final(self).response() == old(self).response(),
            match r {
                Some(line) => exists|i: int|
                    first_newline_at(old(self).pending(), i) && line@ == trim_ws_spec(
                        utf8_lossy(old(self).pending().subrange(0, i)),
                    ) && final(self).pending() == old(self).pending().subrange(
                        i + 1,
                        old(self).pending().len() as int,
                    ),
                None => no_newline(old(self).pending()) && final(self).pending() == old(
                    self,
                ).pending(),
            },
            match r {
                Some(line) => {
                    let s = split_lines(old(self).pending());
                    &&& s.0.len() > 0
                    &&& line@ == trim_ws_spec(utf8_lossy(s.0[0]))
                    &&& split_lines(final(self).pending()) == (s.0.drop_first(), s.1)
                },
                None => split_lines(old(self).pending()).0.len() == 0,
            },
    {
        let mut pos: usize = 0;
        while pos < self.buffer.len() && self.buffer[pos] != 10u8
            invariant
                pos <= self.buffer@.len(),
                forall|j: int| 0 <= j < pos ==> self.buffer@[j] != 10u8,
            decreases self.buffer.len() - pos,
        {
            pos = pos + 1;
        }
        if pos == self.buffer.len() {
            proof {
                lemma_newline_index(self.buffer@);
                if newline_index(self.buffer@) is Some {
                    let i = newline_index(self.buffer@)->0;
                    assert(self.buffer@[i] == 10u8);
                }
            }
            return None;
        }
        let ghost old_buf = self.buffer@;
        let mut head = self.buffer.split_off(pos + 1);
        std::mem::swap(&mut self.buffer, &mut head);
        head.truncate(pos);
        assert(head@ =~= old_buf.subrange(0, pos as int));
        let text = decode_utf8_lossy(head.as_slice());
        let line = String::from_str(trim_ws(text.as_str()));
        assert(first_newline_at(old_buf, pos as int));
        assert(self.buffer@ == old_buf.subrange(pos + 1, old_buf.len() as int));
        assert(text@ == utf8_lossy(old_buf.subrange(0, pos as int)));
        assert(line@ == trim_ws_spec(utf8_lossy(old_buf.subrange(0, pos as int))));
        assert(old_buf == old(self).pending());
        assert(self.full_response == old(self).full_response);
        proof {
            lemma_first_newline_unique(old_buf, pos as int);
            let rest = split_lines(old_buf.subrange(pos + 1, old_buf.len() as int));
            assert((seq![old_buf.subrange(0, pos as int)] + rest.0).drop_first() =~= rest.0);
            assert((seq![old_buf.subrange(0, pos as int)] + rest.0)[0] == old_buf.subrange(0, pos as int));
        }
        Some(line)
    }

    /// The response text gathered so far.
    pub fn full_response(&self) -> (r: String)
        ensures
            r@ == self.response(),
    {
        self.full_response.clone()
    }

    /// Handles one data payload, given what it parses to: as a stream event
    /// (`event`), or else as an error report whose message is `error_message`.
    /// A first choice that finishes with `error` or `length` reports an error
    /// and ends the stream; otherwise its content is handed out and added to
    /// the response, then its reasoning is handed out. An error report is
    /// handed out and ends the stream.
    pub fn handle_event(&mut self, event: Option<StreamEvent>, error_message: Option<String>) -> (r:
        EventStep)
        ensures
            final(self).pending() == old(self).pending(),
            outputs_view(r.outputs@) == step_outputs(event, opt_text(error_message)),
            (r.error is Some) == step_stops(event, opt_text(error_message)),
            !step_stops(event, opt_text(error_message)) ==> final(self).response() == old(
                self,
            ).response() + step_text(event),
            match event {
                Some(ev) => match event_first_choice(ev) {
                    Some(c) => if choice_fails(c) {
                        &&& outputs_view(r.outputs@) == seq![(OutputKind::Error, failure_message(c))]
                        &&& r.error matches Some(ClaudeError::ApiError { provider: p, message: m })
                        &&& p@ == "deepseek"@ && m@ == failure_message(c)
                        &&& final(self).response() == old(self).response()
                    } else {
                        &&& outputs_view(r.outputs@) == choice_outputs(c)
                        &&& r.error is None
                        &&& final(self).response() == old(self).response() + match c.content {
                            Some(t) => t@,
                            None => Seq::<char>::empty(),
                        }
                    },
                    None => r.outputs@.len() == 0 && r.error is None && final(self).response()
                        == old(self).response(),
                },
                None => match error_message {
                    Some(m) => {
                        &&& outputs_view(r.outputs@) == seq![(OutputKind::Error, m@)]
                        &&& r.error matches Some(ClaudeError::ApiError { provider: p, message: em })
                        &&& p@ == "deepseek"@ && em@ == m@
                        &&& final(self).response() == old(self).response()
                    },
                    None => r.outputs@.len() == 0 && r.error is None && final(self).response()
                        == old(self).response(),
                },
            },
    {
        let mut outputs: Vec<StreamOutput> = Vec::new();
        match event {
            Some(ev) => {
                match ev.choices {
                    Some(cs) => {
                        if cs.len() > 0 {
                            let c = &cs[0];
                            let fails = match &c.finish_reason {
                                Some(f) => crate::text::str_eq(f.as_str(), "error")
                                    || crate::text::str_eq(f.as_str(), "length"),
                                None => false,
                            };
                            if fails {
                                let msg = match &c.content {
                                    Some(t) => t.clone(),
                                    None => String::from_str("Stream ended unexpectedly"),
                                };
                                outputs.push(StreamOutput { kind: OutputKind::Error, content: msg.clone() });
                                assert(outputs_view(outputs@) =~= seq![(OutputKind::Error, msg@)]);
                                return EventStep {
                                    outputs,
                                    error: Some(
                                        ClaudeError::ApiError {
                                            provider: String::from_str("deepseek"),
                                            message: msg,
                                        },
                                    ),
                                };
                            }
                            match &c.content {
                                Some(t) => {
                                    self.full_response.append(t.as_str());
                                    outputs.push(StreamOutput { kind: OutputKind::Content, content: t.clone() });
                                },
                                None => {
                                    assert(self.full_response@ =~= old(self).full_response@ + Seq::<
                                        char,
                                    >::empty());
                                },
                            }
                            let ghost after_content = outputs_view(outputs@);
                            match &c.reasoning_content {
                                Some(t) => {
                                    outputs.push(StreamOutput { kind: OutputKind::Thinking, content: t.clone() });
                                },
                                None => {},
                            }
                            assert(outputs_view(outputs@) =~= choice_outputs(*c));
                            EventStep { outputs, error: None }
                        } else {
                            EventStep { outputs, error: None }
                        }
                    },
                    None => EventStep { outputs, error: None },
                }
            },
            None => match error_message {
                Some(m) => {
                    outputs.push(StreamOutput { kind: OutputKind::Error, content: m.clone() });
                    assert(outputs_view(outputs@) =~= seq![(OutputKind::Error, m@)]);
                    EventStep {
                        outputs,
                        error: Some(ClaudeError::ApiError { provider: String::from_str("deepseek"), message: m }),
                    }
                },
                None => EventStep { outputs, error: None },
            },
        }
    }
}

/// The response text of a SiliconFlow stream.
pub struct SiliconFlowStream {
    full_response: String,
}

impl SiliconFlowStream {
    /// The response text gathered so far.
    pub closed spec fn response(&self) -> Seq<char> {
        self.full_response@
    }

    /// No text yet.
    pub fn new() -> (r: SiliconFlowStream)
        ensures
            r.response() == Seq::<char>::empty(),
    {
        SiliconFlowStream { full_response: String::new() }
    }

    /// Handles one parsed event: the content of its first choice, if any, is
    /// added to the response and handed out as a content piece.
    pub fn handle_event(&mut self, event: StreamEvent) -> (r: Option<StreamOutput>)
        ensures
            match event_first_choice(event) {
                Some(c) => match c.content {
                    Some(t) => r matches Some(o) && o.kind == OutputKind::Content && o.content@ == t@,
                    None => r is None,
                },
                None => r is None,
            },
            final(self).response() == old(self).response() + match r {
                Some(o) => o.content@,
                None => Seq::<char>::empty(),
            },
    {
        match event.choices {
            Some(cs) => {
                if cs.len() > 0 {
                    match &cs[0].content {
                        Some(t) => {
                            self.full_response.append(t.as_str());
                            return Some(StreamOutput { kind: OutputKind::Content, content: t.clone() });
                        },
                        None => {},
                    }
                }
            },
            None => {},
        }
        assert(self.full_response@ =~= old(self).full_response@ + Seq::<char>::empty());
        None
    }

    /// The response text gathered so far.
    pub fn full_response(&self) -> (r: String)
        ensures
            r@ == self.response(),
    {
        self.full_response.clone()
    }
}

} // verus!
