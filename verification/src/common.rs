//! Helpers shared by the providers: server-sent-event lines, token
//! estimates, truncation and the retry schedule.
use vstd::prelude::*;
use vstd::string::*;

use crate::text::{seq_strip_prefix, seq_take_chars};
use vstd::arithmetic::power2::{pow2, lemma2_to64, lemma2_to64_rest, lemma_pow2_unfold, lemma_pow2_strictly_increases};

verus! {

/// `data: `, the prefix of a data line of a server-sent-event stream.
pub open spec fn data_prefix() -> Seq<char> {
    seq!['d', 'a', 't', 'a', ':', ' ']
}

/// `[DONE]`, the payload that ends a stream.
pub open spec fn done_marker() -> Seq<char> {
    seq!['[', 'D', 'O', 'N', 'E', ']']
}

/// The payload of a server-sent-event line: the text after `data: `, except
/// the end marker `[DONE]`; `None` for any other line.
pub open spec fn sse_line_payload(line: Seq<char>) -> Option<Seq<char>> {
    match seq_strip_prefix(line, data_prefix()) {
        Some(d) => if d == done_marker() {
            None
        } else {
            Some(d)
        },
        None => None,
    }
}

/// Estimated number of tokens of a text: a quarter of its characters.
pub open spec fn token_estimate(text: Seq<char>) -> nat {
    text.len() / 4
}

/// `data: ` as a string slice.
pub fn data_prefix_str() -> (r: &'static str)
    ensures
        r@ == data_prefix(),
{
    proof {
        reveal_strlit("data: ");
    }
    "data: "
}

/// `[DONE]` as a string slice.
pub fn done_marker_str() -> (r: &'static str)
    ensures
        r@ == done_marker(),
{
    proof {
        reveal_strlit("[DONE]");
    }
    "[DONE]"
}

/// The payload of a server-sent-event data line, `None` for the end marker
/// and for lines that are not data lines.
pub fn parse_sse_line(line: &str) -> (r: Option<String>)
    ensures
        match r {
            Some(s) => sse_line_payload(line@) == Some(s@),
            None => sse_line_payload(line@) is None,
        },
{
    match crate::text::strip_prefix(line, data_prefix_str()) {
        Some(data) => {
            if crate::text::str_eq(data, done_marker_str()) {
                None
            } else {
                Some(String::from_str(data))
            }
        },
        None => None,
    }
}

/// Estimated number of tokens of a text: its number of characters divided by four.
pub fn estimate_token_count(text: &str) -> (r: usize)
    ensures
        r == token_estimate(text@),
{
    text.unicode_len() / 4
}

/// The text cut to at most `max_tokens * 4` characters.
pub fn truncate_text(text: &str, max_tokens: usize) -> (r: String)
    requires
        max_tokens * 4 <= usize::MAX,
    ensures
        r@ == seq_take_chars(text@, max_tokens * 4),
{
    let max_chars = max_tokens * 4;
    crate::text::take_chars(text, max_chars)
}

/// A truncated text fits its token budget, starts the original text, and a
/// text already within the budget is left whole.
pub proof fn law_truncation_fits_budget(text: Seq<char>, max_tokens: nat)
    ensures
        token_estimate(seq_take_chars(text, (max_tokens * 4) as int)) <= max_tokens,
        text.take(seq_take_chars(text, (max_tokens * 4) as int).len() as int) == seq_take_chars(
            text,
            (max_tokens * 4) as int,
        ),
        token_estimate(text) < max_tokens ==> seq_take_chars(text, (max_tokens * 4) as int) == text,
{
    let t = seq_take_chars(text, (max_tokens * 4) as int);
    assert(t.len() <= max_tokens * 4);
    assert(t.len() / 4 <= max_tokens) by (nonlinear_arith)
        requires
            t.len() <= max_tokens * 4,
    ;
    assert(text.take(t.len() as int) =~= t);
    if token_estimate(text) < max_tokens {
        assert(text.len() / 4 < max_tokens);
        assert(text.len() < max_tokens * 4) by (nonlinear_arith)
            requires
                text.len() / 4 < max_tokens,
        ;
    }
}

/// The pause before the next attempt after `attempts` failed ones, in
/// milliseconds: `500 * 2^attempts`.
pub open spec fn backoff_ms(attempts: nat) -> nat {
    500 * pow2(attempts)
}

/// What the retry loop does after its `attempts`-th failure: give up
/// (`None`) once `attempts >= max_retries`, else wait `backoff_ms(attempts)`.
pub open spec fn retry_step(attempts: nat, max_retries: nat) -> Option<nat> {
    if attempts >= max_retries {
        None
    } else {
        Some(backoff_ms(attempts))
    }
}

/// Each pause is twice the one before, and the loop gives up exactly when
/// the failures reach the limit.
pub proof fn law_backoff_doubles(attempts: nat, max_retries: nat)
    ensures
        backoff_ms(attempts + 1) == 2 * backoff_ms(attempts),
        retry_step(attempts, max_retries) is None <==> attempts >= max_retries,
{
    lemma_pow2_unfold(attempts + 1);
}

proof fn lemma_pow2_monotone(a: nat, b: nat)
    requires
        a <= b,
    ensures
        pow2(a) <= pow2(b),
{
    if a < b {
        lemma_pow2_strictly_increases(a, b);
    }
}

/// The pause `500 * 2^attempts` fits in a `u64`.
pub fn backoff_fits(attempts: u32) -> (r: bool)
    ensures
        r == (backoff_ms(attempts as nat) <= u64::MAX),
{
    if attempts <= 55 {
        proof {
            lemma_pow2_monotone(attempts as nat, 55);
            lemma2_to64_rest();
        }
        true
    } else {
        proof {
            lemma_pow2_monotone(56, attempts as nat);
            lemma2_to64_rest();
        }
        false
    }
}

/// The decision of the retry loop after its `attempts`-th failure: `None` to
/// give up and return the error, `Some(ms)` to wait `ms` milliseconds and try
/// again.
pub fn retry_delay_ms(attempts: u32, max_retries: u32) -> (r: Option<u64>)
    requires
        attempts >= max_retries || backoff_ms(attempts as nat) <= u64::MAX,
    ensures
        match r {
            Some(ms) => retry_step(attempts as nat, max_retries as nat) == Some(ms as nat),
            None => retry_step(attempts as nat, max_retries as nat) is None,
        },
{
    if attempts >= max_retries {
        return None;
    }
    proof {
        lemma2_to64();
    }
    let mut delay: u64 = 500;
    let mut i: u32 = 0;
    while i < attempts
        invariant
            i <= attempts,
            delay == 500 * pow2(i as nat),
            backoff_ms(attempts as nat) <= u64::MAX,
        decreases attempts - i,
    {
        proof {
            lemma_pow2_monotone((i + 1) as nat, attempts as nat);
            lemma_pow2_unfold((i + 1) as nat);
        }
        delay = delay * 2;
        i = i + 1;
    }
    Some(delay)
}

} // verus!
