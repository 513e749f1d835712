//! A per-minute request and token budget.
use vstd::prelude::*;

verus! {

#[verifier::external_type_specification]
#[verifier::external_body]
pub struct ExInstant(std::time::Instant);

/// `Instant::now`. Nothing is promised of the value: it is the clock's.
#[verifier::external_body]
fn instant_now() -> std::time::Instant {
    std::time::Instant::now()
}

/// Whole seconds elapsed since `start` (`Instant::elapsed`, read by
/// `Duration::as_secs`). Nothing is promised of the value: it is the clock's.
#[verifier::external_body]
fn elapsed_secs(start: &std::time::Instant) -> u64 {
    start.elapsed().as_secs()
}

/// Length of a rate-limit window, in seconds.
pub open spec fn window_secs() -> nat {
    60
}

/// The counters of a rate limiter, and which window they count in: the
/// window number goes up by one each time a new window starts.
pub struct RateLimiterView {
    pub requests_per_minute: u32,
    pub tokens_per_minute: u32,
    pub current_requests: u32,
    pub current_tokens: u32,
    pub window: nat,
}

/// The counters after the window is renewed when `elapsed` seconds have
/// passed since it began.
pub open spec fn rl_reset(v: RateLimiterView, elapsed: nat) -> RateLimiterView {
    if elapsed >= window_secs() {
        RateLimiterView { current_requests: 0, current_tokens: 0, window: v.window + 1, ..v }
    } else {
        v
    }
}

/// Whether a request of `tokens` fits the budget, `elapsed` seconds into the window.
pub open spec fn rl_check(v: RateLimiterView, tokens: nat, elapsed: nat) -> bool {
    let w = rl_reset(v, elapsed);
    w.current_requests < w.requests_per_minute && w.current_tokens + tokens
        <= w.tokens_per_minute
}

/// The counters after a request of `tokens` is counted, `elapsed` seconds
/// into the window.
pub open spec fn rl_consume(v: RateLimiterView, tokens: nat, elapsed: nat) -> RateLimiterView {
    let w = rl_reset(v, elapsed);
    RateLimiterView {
        current_requests: (w.current_requests + 1) as u32,
        current_tokens: (w.current_tokens + tokens) as u32,
        ..w
    }
}

/// Counting a request of `tokens` does not overflow the counters.
pub open spec fn rl_consume_fits(v: RateLimiterView, tokens: nat, elapsed: nat) -> bool {
    let w = rl_reset(v, elapsed);
    w.current_requests + 1 <= u32::MAX && w.current_tokens + tokens <= u32::MAX
}

/// Seconds until the window renews, `elapsed` seconds into it.
pub open spec fn rl_retry_after(elapsed: nat) -> nat {
    if elapsed < window_secs() {
        (window_secs() - elapsed) as nat
    } else {
        0
    }
}

/// A limit of requests and tokens per minute.
pub struct RateLimiter {
    requests_per_minute: u32,
    tokens_per_minute: u32,
    current_requests: u32,
    current_tokens: u32,
    window_start: std::time::Instant,
    window: Ghost<nat>,
}

impl View for RateLimiter {
    type V = RateLimiterView;

    closed spec fn view(&self) -> RateLimiterView {
        RateLimiterView {
            requests_per_minute: self.requests_per_minute,
            tokens_per_minute: self.tokens_per_minute,
            current_requests: self.current_requests,
            current_tokens: self.current_tokens,
            window: self.window@,
        }
    }
}

impl RateLimiter {
    /// A limiter with the given limits and no usage, whose window starts now.
    pub fn new(requests_per_minute: u32, tokens_per_minute: u32) -> (r: RateLimiter)
        ensures
            r@ == (RateLimiterView {
                requests_per_minute,
                tokens_per_minute,
                current_requests: 0,
                current_tokens: 0,
                window: 0,
            }),
    {
        RateLimiter {
            requests_per_minute,
            tokens_per_minute,
            current_requests: 0,
            current_tokens: 0,
            window_start: instant_now(),
            window: Ghost(0),
        }
    }

    /// Renews the window when `elapsed` seconds have passed since it began:
    /// the counters restart from zero and the window starts now.
    pub fn reset_if_needed_at(&mut self, elapsed: u64)
        ensures
            final(self)@ == rl_reset(old(self)@, elapsed as nat),
    {
        if elapsed >= 60 {
            self.current_requests = 0;
            self.current_tokens = 0;
            self.window_start = instant_now();
            self.window = Ghost(self.window@ + 1);
        }
    }

    /// Whether a request of `tokens_needed` tokens fits, `elapsed` seconds into
    /// the window (renewing the window first when it is over).
    pub fn check_at(&mut self, tokens_needed: u32, elapsed: u64) -> (r: bool)
        requires
            rl_reset(old(self)@, elapsed as nat).current_requests < old(self)@.requests_per_minute
                ==> rl_reset(old(self)@, elapsed as nat).current_tokens + tokens_needed <= u32::MAX,
        ensures
            final(self)@ == rl_reset(old(self)@, elapsed as nat),
            r == rl_check(old(self)@, tokens_needed as nat, elapsed as nat),
    {
        self.reset_if_needed_at(elapsed);
        self.current_requests < self.requests_per_minute && self.current_tokens + tokens_needed
            <= self.tokens_per_minute
    }

    /// Counts a request of `tokens` tokens, `elapsed` seconds into the window
    /// (renewing the window first when it is over).
    pub fn consume_at(&mut self, tokens: u32, elapsed: u64)
        requires
            rl_consume_fits(old(self)@, tokens as nat, elapsed as nat),
        ensures
            final(self)@ == rl_consume(old(self)@, tokens as nat, elapsed as nat),
    {
        self.reset_if_needed_at(elapsed);
        self.current_requests = self.current_requests + 1;
        self.current_tokens = self.current_tokens + tokens;
    }

    /// Seconds until the window renews, `elapsed` seconds into it.
    pub fn retry_after_at(&self, elapsed: u64) -> (r: u64)
        ensures
            r == rl_retry_after(elapsed as nat),
    {
        if elapsed < 60 {
            60 - elapsed
        } else {
            0
        }
    }

    /// Whether a request of `tokens_needed` tokens fits now.
    pub fn check(&mut self, tokens_needed: u32) -> (r: bool)
        requires
            old(self)@.current_requests < old(self)@.requests_per_minute ==> old(self)@.current_tokens
                + tokens_needed <= u32::MAX,
        ensures
            exists|e: nat|
                final(self)@ == rl_reset(old(self)@, e) && r == rl_check(
                    old(self)@,
                    tokens_needed as nat,
                    e,
                ),
    {
        let elapsed = elapsed_secs(&self.window_start);
        self.check_at(tokens_needed, elapsed)
    }

    /// Counts a request of `tokens` tokens now.
    pub fn consume(&mut self, tokens: u32)
        requires
            old(self)@.current_requests < u32::MAX,
            old(self)@.current_tokens + tokens <= u32::MAX,
        ensures
            exists|e: nat| final(self)@ == rl_consume(old(self)@, tokens as nat, e),
    {
        let elapsed = elapsed_secs(&self.window_start);
        self.consume_at(tokens, elapsed)
    }

    /// Seconds until the current window renews.
    pub fn retry_after(&self) -> (r: u64)
        ensures
            exists|e: nat| r == rl_retry_after(e),
    {
        let elapsed = elapsed_secs(&self.window_start);
        self.retry_after_at(elapsed)
    }
}

/// A request that `check` admits stays within both limits once it is counted
/// at the same moment.
pub proof fn law_admitted_request_stays_within_limits(v: RateLimiterView, tokens: nat, elapsed: nat)
    requires
        rl_check(v, tokens, elapsed),
    ensures
        rl_consume_fits(v, tokens, elapsed),
        rl_consume(v, tokens, elapsed).current_requests <= v.requests_per_minute,
        rl_consume(v, tokens, elapsed).current_tokens <= v.tokens_per_minute,
{
}

/// Once a minute has passed, the budget is whole again: a request fits
/// exactly when the request limit is positive and its tokens do not exceed
/// the token limit.
pub proof fn law_window_renewal_restores_budget(v: RateLimiterView, tokens: nat, elapsed: nat)
    requires
        elapsed >= window_secs(),
    ensures
        rl_check(v, tokens, elapsed) == (v.requests_per_minute > 0 && tokens
            <= v.tokens_per_minute),
        rl_reset(v, elapsed).current_requests == 0,
        rl_reset(v, elapsed).current_tokens == 0,
{
}

/// The wait never exceeds one window, and is zero exactly when the window is over.
pub proof fn law_retry_after_bounded(elapsed: nat)
    ensures
        rl_retry_after(elapsed) <= window_secs(),
        (rl_retry_after(elapsed) == 0) == (elapsed >= window_secs()),
{
}

/// Within a window, checking does not change the counters, and each counted
/// request raises the request count by one and the token count by its tokens.
pub proof fn law_counts_accumulate_within_window(v: RateLimiterView, t1: nat, t2: nat, elapsed: nat)
    requires
        elapsed < window_secs(),
        v.current_requests + 2 <= u32::MAX,
        v.current_tokens + t1 + t2 <= u32::MAX,
    ensures
        rl_reset(v, elapsed) == v,
        rl_consume(rl_consume(v, t1, elapsed), t2, elapsed).current_requests == v.current_requests
            + 2,
        rl_consume(rl_consume(v, t1, elapsed), t2, elapsed).current_tokens == v.current_tokens + t1
            + t2,
{
}

/// The sum of some token counts.
pub open spec fn token_sum(cs: Seq<nat>) -> nat
    decreases cs.len(),
{
    if cs.len() == 0 {
        0
    } else {
        token_sum(cs.drop_last()) + cs.last()
    }
}

/// The counters after requests of `cs` tokens are counted in turn, the i-th
/// `es[i]` seconds into the window.
pub open spec fn consume_all(v: RateLimiterView, cs: Seq<nat>, es: Seq<nat>) -> RateLimiterView
    decreases cs.len(),
{
    if cs.len() == 0 || es.len() == 0 {
        v
    } else {
        rl_consume(consume_all(v, cs.drop_last(), es.drop_last()), cs.last(), es.last())
    }
}

/// Within one window, requests of `c1, ..., ck` tokens counted in turn leave
/// the window as it was and raise the counts by `k` and `c1 + ... + ck`; a
/// request of `n` tokens then fits exactly when fewer than the request limit
/// were counted and the tokens stay within the token limit. Checking counts
/// nothing: a second check in the window gives the same answer.
pub proof fn law_window_accumulates(v: RateLimiterView, cs: Seq<nat>, es: Seq<nat>, n: nat, e: nat, e2: nat)
    requires
        cs.len() == es.len(),
        forall|i: int| 0 <= i < es.len() ==> es[i] < window_secs(),
        e < window_secs(),
        e2 < window_secs(),
        v.current_requests + cs.len() <= u32::MAX,
        v.current_tokens + token_sum(cs) <= u32::MAX,
    ensures
        ({
            let w = consume_all(v, cs, es);
            &&& w.window == v.window
            &&& w.requests_per_minute == v.requests_per_minute
            &&& w.tokens_per_minute == v.tokens_per_minute
            &&& w.current_requests == v.current_requests + cs.len()
            &&& w.current_tokens == v.current_tokens + token_sum(cs)
            &&& rl_check(w, n, e) == (v.current_requests + cs.len() < v.requests_per_minute
                && v.current_tokens + token_sum(cs) + n <= v.tokens_per_minute)
            &&& rl_reset(w, e) == w
            &&& rl_check(rl_reset(w, e), n, e2) == rl_check(w, n, e)
        }),
    decreases cs.len(),
{
    if cs.len() > 0 {
        let p = cs.drop_last();
        let q = es.drop_last();
        assert(forall|i: int| 0 <= i < q.len() ==> q[i] == es[i]);
        assert(token_sum(p) <= token_sum(cs));
        law_window_accumulates(v, p, q, n, e, e2);
        assert(es.last() == es[es.len() - 1]);
        let wp = consume_all(v, p, q);
        assert(rl_reset(wp, es.last()) == wp);
        assert(consume_all(v, cs, es) == rl_consume(wp, cs.last(), es.last()));
        assert(wp.current_requests + 1 <= u32::MAX);
        assert(wp.current_tokens + cs.last() <= u32::MAX);
        assert(token_sum(cs) == token_sum(p) + cs.last());
    } else {
        assert(consume_all(v, cs, es) == v);
        assert(token_sum(cs) == 0);
    }
}

/// Counting never refuses a request: after counting `tokens` tokens, a
/// request of `n` tokens later in the same window fits exactly when the
/// counts after any renewal, plus this request, leave room for it.
pub proof fn law_consume_then_check(v: RateLimiterView, tokens: nat, e: nat, n: nat, e2: nat)
    requires
        rl_consume_fits(v, tokens, e),
        e2 < window_secs(),
    ensures
        ({
            let w = rl_reset(v, e);
            let after = rl_consume(v, tokens, e);
            &&& after.current_requests == w.current_requests + 1
            &&& after.current_tokens == w.current_tokens + tokens
            &&& rl_check(after, n, e2) == (w.current_requests + 1 < v.requests_per_minute
                && w.current_tokens + tokens + n <= v.tokens_per_minute)
        }),
{
}

/// The window number tells whether a new window started: it stays the same
/// exactly when the call came within the window, and then the call acts as
/// at the window's start.
pub proof fn law_window_number_tells_renewal(v: RateLimiterView, tokens: nat, e: nat)
    ensures
        (rl_reset(v, e).window == v.window) == (e < window_secs()),
        rl_reset(v, e).window == v.window ==> rl_reset(v, e) == rl_reset(v, 0),
        rl_consume(v, tokens, e).window == v.window ==> rl_consume(v, tokens, e) == rl_consume(
            v,
            tokens,
            0,
        ),
{
}

proof fn lemma_window_grows(v: RateLimiterView, cs: Seq<nat>, es: Seq<nat>)
    requires
        cs.len() == es.len(),
    ensures
        consume_all(v, cs, es).window >= v.window,
        consume_all(v, cs, es).window == v.window ==> forall|i: int|
            0 <= i < es.len() ==> #[trigger] es[i] < window_secs(),
    decreases cs.len(),
{
    if cs.len() > 0 {
        let p = cs.drop_last();
        let q = es.drop_last();
        lemma_window_grows(v, p, q);
        let wp = consume_all(v, p, q);
        assert(consume_all(v, cs, es) == rl_consume(wp, cs.last(), es.last()));
        if consume_all(v, cs, es).window == v.window {
            assert(wp.window == v.window);
            assert forall|i: int| 0 <= i < es.len() implies #[trigger] es[i] < window_secs() by {
                if i < es.len() - 1 {
                    assert(es[i] == q[i]);
                }
            }
        }
    }
}

/// Requests counted one after another while the window number stays the
/// same (no new window started; the clock-based `consume` shows this in its
/// view) raise the counts by their number and their tokens; a request of
/// `n` tokens then fits exactly when fewer than the request limit were
/// counted and the tokens stay within the token limit, and checking it counts
/// nothing.
pub proof fn law_same_window_accumulates(v: RateLimiterView, cs: Seq<nat>, es: Seq<nat>, n: nat, e: nat)
    requires
        cs.len() == es.len(),
        consume_all(v, cs, es).window == v.window,
        rl_reset(consume_all(v, cs, es), e).window == v.window,
        v.current_requests + cs.len() <= u32::MAX,
        v.current_tokens + token_sum(cs) <= u32::MAX,
    ensures
        ({
            let w = consume_all(v, cs, es);
            &&& w.current_requests == v.current_requests + cs.len()
            &&& w.current_tokens == v.current_tokens + token_sum(cs)
            &&& rl_check(w, n, e) == (v.current_requests + cs.len() < v.requests_per_minute
                && v.current_tokens + token_sum(cs) + n <= v.tokens_per_minute)
            &&& rl_reset(w, e) == w
        }),
{
    lemma_window_grows(v, cs, es);
    law_window_accumulates(v, cs, es, n, e, e);
}

} // verus!
