//! Retry / back-off helpers.
//!
//! Honour `Retry-After` exactly when present, otherwise use exponential
//! back-off with a deterministic jitter.
use vstd::prelude::*;

use crate::text::{
    all_digits, chars_of, decimal, is_digit, lemma_decimal_digits, lemma_trim_digits, parse_digits,
    parse_u64, parse_u64_in, trim, trim_bounds,
};
use crate::error::{classified, header_delay, ApiError, ClientError};
use crate::time::{TimeSpan, MAX_NANOS};

verus! {

/// `2^e`.
pub open spec fn pow2(e: nat) -> nat
    decreases e,
{
    if e == 0 {
        1
    } else {
        2 * pow2((e - 1) as nat)
    }
}

/// 2^64: the scale of the jitter fraction.
pub open spec fn two_64() -> nat {
    0x1_0000_0000_0000_0000
}

/// The pseudo-random bits drawn for `attempt` (a splitmix64 step).
pub open spec fn jitter_bits(attempt: u32) -> u64 {
    let z = (attempt as u64).wrapping_add(0x9E37_79B9_7F4A_7C15);
    let z = (z ^ (z >> 30u64)).wrapping_mul(0xBF58_476D_1CE4_E5B9);
    let z = (z ^ (z >> 27u64)).wrapping_mul(0x94D0_49BB_1331_11EB);
    z ^ (z >> 31u64)
}

/// The exponent used for `attempt`: the attempt number, capped at 10.
pub open spec fn backoff_exponent(attempt: u32) -> nat {
    if attempt < 10 {
        attempt as nat
    } else {
        10
    }
}

/// `base * 2^min(attempt, 10)`, capped at `cap`, in nanoseconds.
pub open spec fn capped_nanos(attempt: u32, base: nat, cap: nat) -> nat {
    let raw = base * pow2(backoff_exponent(attempt));
    if raw <= cap {
        raw
    } else {
        cap
    }
}

/// `capped * (1/2 + bits / 2^65)`, rounded down: a factor in `[0.5, 1)`.
pub open spec fn jittered_nanos(capped: nat, bits: u64) -> nat {
    ((capped * (two_64() + bits as nat)) / (2 * two_64())) as nat
}

/// The back-off delay for `attempt`, in nanoseconds.
pub open spec fn backoff_nanos(attempt: u32, base: nat, cap: nat) -> nat {
    let j = jittered_nanos(capped_nanos(attempt, base, cap), jitter_bits(attempt));
    if j <= u64::MAX {
        j
    } else {
        u64::MAX as nat
    }
}

/// The delay `Retry-After: value` asks for, if it is a whole number of seconds.
pub open spec fn retry_after_secs(value: Seq<char>) -> Option<u64> {
    parse_u64(trim(value))
}

/// The pseudo-random bits for `attempt` (splitmix64 mixing of the counter).
pub fn jitter_fraction(attempt: u32) -> (z: u64)
    ensures
        z == jitter_bits(attempt),
{
    let mut z = attempt as u64;
    z = z.wrapping_add(0x9E37_79B9_7F4A_7C15);
    z = (z ^ (z >> 30)).wrapping_mul(0xBF58_476D_1CE4_E5B9);
    z = (z ^ (z >> 27)).wrapping_mul(0x94D0_49BB_1331_11EB);
    z ^= z >> 31;
    z
}

/// `floor(c * (2^64 + z) / 2^65)` computed without overflow for `c < 2^65`.
proof fn lemma_jitter_split(c: int, z: int, ch: int, cl: int, q: int, r: int)
    requires
        0 <= z < 0x1_0000_0000_0000_0000,
        0 <= cl < 0x1_0000_0000_0000_0000,
        0 <= ch,
        0 <= q,
        c == ch * 0x1_0000_0000_0000_0000 + cl,
        cl * z == q * 0x1_0000_0000_0000_0000 + r,
        0 <= r < 0x1_0000_0000_0000_0000,
    ensures
        (c * (0x1_0000_0000_0000_0000 + z)) / 0x2_0000_0000_0000_0000 == (c + ch * z + q) / 2,
{
    let t: int = 0x1_0000_0000_0000_0000;
    let s = c + ch * z + q;
    assert(c * (t + z) == t * s + r) by (nonlinear_arith)
        requires
            c == ch * t + cl,
            cl * z == q * t + r,
            s == c + ch * z + q,
    ;
    assert(ch * z >= 0) by (nonlinear_arith)
        requires
            ch >= 0,
            z >= 0,
    ;
    assert((t * s + r) / (2 * t) == s / 2) by (nonlinear_arith)
        requires
            t > 0,
            s >= 0,
            0 <= r < t,
    {
        let h = s / 2;
        let b = s % 2;
        assert(s == 2 * h + b);
        assert(t * s + r == (2 * t) * h + (t * b + r));
        assert(0 <= t * b + r < 2 * t);
    }
}

/// `2^e` as computed by doubling.
fn pow2_exec(e: u32) -> (r: u128)
    requires
        e <= 10,
    ensures
        r == pow2(e as nat),
        r <= 1024,
{
    let mut r: u128 = 1;
    let mut i: u32 = 0;
    while i < e
        invariant
            i <= e <= 10,
            r == pow2(i as nat),
        decreases e - i,
    {
        proof {
            lemma_pow2_bound(i as nat);
        }
        r = r * 2;
        i = i + 1;
    }
    proof {
        lemma_pow2_bound(e as nat);
    }
    r
}

/// `2^e <= 1024` for `e <= 10`.
proof fn lemma_pow2_bound(e: nat)
    ensures
        e <= 10 ==> pow2(e) <= 1024,
        e < 10 ==> pow2(e + 1) <= 1024,
        pow2(e) >= 1,
{
    reveal_with_fuel(pow2, 12);
    if e <= 10 {
        assert(pow2(e) <= 1024);
    }
    lemma_pow2_positive(e);
}

/// `2^e >= 1`.
proof fn lemma_pow2_positive(e: nat)
    ensures
        pow2(e) >= 1,
    decreases e,
{
    if e > 0 {
        lemma_pow2_positive((e - 1) as nat);
    }
}

/// Exponential back-off delay with jitter for a 0-indexed retry `attempt`.
///
/// The delay grows as `base * 2^attempt` (the exponent stops growing at 10),
/// is capped at `cap`, and is then scaled by a deterministic factor in
/// `[0.5, 1)` drawn from the attempt number, so the helper stays pure.
///
/// The scaling is done exactly in integers: the delay is
/// `floor(capped * (2^64 + z) / 2^65)` for the mixed attempt bits `z`.
/// Computing `capped * (0.5 + 0.5 * z / u64::MAX)` in `f64` instead rounds
/// `z`, the factor and the product to 53 significant bits, so the two can
/// differ by a nanosecond (attempt 7 with 4 213 036 584 056 683 ns capped
/// gives 2 927 701 787 791 360 ns here, where the `f64` formula gives
/// ...361). With base and cap of 1 ms and 1 s, 100 ms and 10 s, or 200 ms
/// and 20 s, the first 40 attempts give the same delays both ways.
pub fn backoff_with_jitter(attempt: u32, base: TimeSpan, cap: TimeSpan) -> (d: TimeSpan)
    ensures
        d@ == backoff_nanos(attempt, base@, cap@),
        d@ <= cap@,
{
    let e: u32 = if attempt < 10 {
        attempt
    } else {
        10
    };
    let exp = pow2_exec(e);
    let b = base.as_nanos();
    let k = cap.as_nanos();
    proof {
        assert(b * exp <= MAX_NANOS * 1024) by (nonlinear_arith)
            requires
                b <= MAX_NANOS,
                exp <= 1024,
                b >= 0,
                exp >= 0,
        ;
    }
    let raw = b * exp;
    let c = if raw <= k {
        raw
    } else {
        k
    };
    let z = jitter_fraction(attempt);
    let two64: u128 = 0x1_0000_0000_0000_0000;
    let ghost spec_c = capped_nanos(attempt, base@, cap@);
    assert(c == spec_c);
    let nanos: u64 = if c >= 2 * two64 {
        proof {
            assert(c * (two64 + z) >= c * two64) by (nonlinear_arith)
                requires
                    z >= 0,
                    c >= 0,
            ;
            assert(c * two64 >= 2 * two64 * two64) by (nonlinear_arith)
                requires
                    c >= 2 * two64,
                    two64 > 0,
            ;
            assert((c * (two64 + z)) / (2 * two64) >= two64) by (nonlinear_arith)
                requires
                    c * (two64 + z) >= 2 * two64 * two64,
                    two64 > 0,
            ;
        }
        u64::MAX
    } else {
        let ch = c / two64;
        let cl = c % two64;
        proof {
            assert(cl * z < two64 * two64) by (nonlinear_arith)
                requires
                    cl < two64,
                    z < two64,
                    cl >= 0,
                    z >= 0,
            ;
        }
        let prod = cl * (z as u128);
        let q = prod / two64;
        let r = prod % two64;
        proof {
            assert(ch <= 1);
            lemma_jitter_split(c as int, z as int, ch as int, cl as int, q as int, r as int);
            assert(q <= two64);
            assert(ch * z <= z) by (nonlinear_arith)
                requires
                    ch <= 1,
                    ch >= 0,
                    z >= 0,
            ;
        }
        let sum = c + ch * (z as u128) + q;
        let j = sum / 2;
        if j <= u64::MAX as u128 {
            j as u64
        } else {
            u64::MAX
        }
    };
    proof {
        assert(jittered_nanos(c as nat, z) <= c) by (nonlinear_arith)
            requires
                z < two64,
                c >= 0,
                jittered_nanos(c as nat, z) == (c * (two64 + z)) / (2 * two64),
                two64 == two_64(),
        {
            assert(c * (two64 + z) <= c * (2 * two64));
        }
        assert(c <= k);
    }
    TimeSpan::from_nanos(nanos)
}

/// The jitter factor lies in `[1/2, 1)`: the jittered delay is at least half
/// the capped delay (rounded down) and never above it.
pub proof fn lemma_jitter_window(capped: nat, bits: u64)
    ensures
        capped / 2 <= jittered_nanos(capped, bits) <= capped,
{
    let t = two_64();
    assert(capped * t <= capped * (t + bits as nat) <= capped * (2 * t)) by (nonlinear_arith)
        requires
            bits < t,
            capped >= 0,
    ;
    assert((capped * t) / (2 * t) == capped / 2) by (nonlinear_arith)
        requires
            t > 0,
            capped >= 0,
    {
        let h = capped / 2;
        let b = capped % 2;
        assert(capped * t == (2 * t) * h + b * t);
        assert(0 <= b * t < 2 * t);
    }
    assert((capped * (2 * t)) / (2 * t) == capped) by (nonlinear_arith)
        requires
            t > 0,
    ;
    assert((capped * t) / (2 * t) <= (capped * (t + bits as nat)) / (2 * t)) by (nonlinear_arith)
        requires
            capped * t <= capped * (t + bits as nat),
            t > 0,
    ;
    assert((capped * (t + bits as nat)) / (2 * t) <= (capped * (2 * t)) / (2 * t)) by (nonlinear_arith)
        requires
            capped * (t + bits as nat) <= capped * (2 * t),
            t > 0,
    ;
}

/// Every back-off delay lies between half the capped delay and the capped
/// delay itself, and never exceeds `cap`.
pub proof fn lemma_backoff_window(attempt: u32, base: nat, cap: nat)
    ensures
        backoff_nanos(attempt, base, cap) <= capped_nanos(attempt, base, cap) <= cap,
        capped_nanos(attempt, base, cap) / 2 <= u64::MAX ==> capped_nanos(attempt, base, cap) / 2
            <= backoff_nanos(attempt, base, cap),
{
    lemma_jitter_window(capped_nanos(attempt, base, cap), jitter_bits(attempt));
}

/// Back-off grows with the attempt number: while the doubled delay still
/// fits under `cap`, the next retry never waits less than this one.
pub proof fn lemma_backoff_grows(attempt: u32, base: nat, cap: nat)
    requires
        attempt < 10,
        base * pow2((attempt + 1) as nat) <= cap,
    ensures
        backoff_nanos(attempt, base, cap) <= backoff_nanos((attempt + 1) as u32, base, cap),
{
    let a = attempt as nat;
    let next = (attempt + 1) as u32;
    assert(pow2(a + 1) == 2 * pow2(a));
    assert(backoff_exponent(next) == a + 1);
    assert(backoff_exponent(attempt) == a);
    let c = base * pow2(a);
    assert(base * pow2(a + 1) == 2 * c) by (nonlinear_arith)
        requires
            pow2(a + 1) == 2 * pow2(a),
            c == base * pow2(a),
    ;
    assert(c <= 2 * c);
    assert(capped_nanos(attempt, base, cap) == c);
    assert(capped_nanos(next, base, cap) == 2 * c);
    lemma_jitter_window(c, jitter_bits(attempt));
    lemma_jitter_window(2 * c, jitter_bits(next));
    assert((2 * c) / 2 == c);
}

/// A `Retry-After` value written as a decimal number of seconds reads back
/// as exactly that many seconds.
pub proof fn lemma_retry_after_round_trip(secs: u64)
    ensures
        retry_after_secs(decimal(secs as nat)) == Some(secs),
{
    let s = decimal(secs as nat);
    lemma_decimal_digits(secs as nat);
    lemma_trim_digits(s);
    assert(is_digit(s[0]));
    assert(parse_u64(s) == parse_digits(s));
}

/// How a request is retried: attempt budget and back-off schedule.
#[derive(Debug, Clone, Copy)]
pub struct RetryPolicy {
    /// Maximum number of retries after the first attempt.
    pub max_retries: u32,
    /// Base of the exponential back-off.
    pub base: TimeSpan,
    /// Cap of the exponential back-off.
    pub cap: TimeSpan,
}

/// What to do after a failed attempt.
#[derive(Debug, Clone, Copy)]
pub enum RetryStep {
    /// Sleep for `delay`, then send the request again.
    Retry {
        /// How long to wait before the next attempt.
        delay: TimeSpan,
    },
    /// Stop and report the error.
    GiveUp,
}

impl RetryPolicy {
    /// The wait, in nanoseconds, before retrying after failed attempt
    /// `attempt` (0-indexed) with error `e`; `None` to give up. A retry
    /// happens while the budget lasts and the error is retryable; it waits
    /// what the server suggested, else the back-off for the attempt.
    pub open spec fn retry_delay(self, attempt: u32, e: ClientError) -> Option<nat> {
        if attempt < self.max_retries && e.retryable() {
            match e.suggested_delay() {
                Some(d) => Some(d),
                None => Some(backoff_nanos(attempt, self.base@, self.cap@)),
            }
        } else {
            None
        }
    }

    /// Decides what follows failed attempt `attempt` with error `err`.
    pub fn next_step(&self, attempt: u32, err: &ClientError) -> (r: RetryStep)
        ensures
            match self.retry_delay(attempt, *err) {
                Some(d) => r matches RetryStep::Retry { delay } && delay@ == d,
                None => r is GiveUp,
            },
    {
        if attempt < self.max_retries && err.is_retryable() {
            let delay = match err.retry_after() {
                Some(d) => d,
                None => backoff_with_jitter(attempt, self.base, self.cap),
            };
            RetryStep::Retry { delay }
        } else {
            RetryStep::GiveUp
        }
    }
}

/// Progress of one request through its attempts.
#[derive(Debug, Clone, Copy)]
pub struct RetryState {
    attempt: u32,
}

impl RetryState {
    /// The number of failed attempts retried so far.
    pub closed spec fn spec_attempt(self) -> nat {
        self.attempt as nat
    }

    /// Before the first attempt.
    pub fn new() -> (r: RetryState)
        ensures
            r.spec_attempt() == 0,
    {
        RetryState { attempt: 0 }
    }

    /// The 0-indexed number of the attempt in flight.
    pub fn attempt(&self) -> (r: u32)
        ensures
            r == self.spec_attempt(),
    {
        self.attempt
    }

    /// Records a failed attempt and says what to do next; a retry moves on
    /// to the next attempt.
    pub fn on_failure(&mut self, policy: &RetryPolicy, err: &ClientError) -> (r: RetryStep)
        ensures
            match policy.retry_delay(old(self).spec_attempt() as u32, *err) {
                Some(d) => {
                    &&& r matches RetryStep::Retry { delay } && delay@ == d
                    &&& final(self).spec_attempt() == old(self).spec_attempt() + 1
                },
                None => r is GiveUp && final(self).spec_attempt() == old(self).spec_attempt(),
            },
            old(self).spec_attempt() <= policy.max_retries ==> final(self).spec_attempt()
                <= policy.max_retries,
    {
        let step = policy.next_step(self.attempt, err);
        match step {
            RetryStep::Retry { .. } => {
                self.attempt = self.attempt + 1;
            },
            RetryStep::GiveUp => {},
        }
        step
    }
}

/// How many retries a request takes when its attempts fail, in order, with
/// `errors`, starting at attempt `attempt`: it stops at the first error it
/// gives up on.
pub open spec fn retries_taken(policy: RetryPolicy, attempt: nat, errors: Seq<ClientError>) -> nat
    decreases errors.len(),
{
    if errors.len() == 0 || attempt > u32::MAX {
        0
    } else if policy.retry_delay(attempt as u32, errors[0]) is Some {
        1 + retries_taken(policy, attempt + 1, errors.drop_first())
    } else {
        0
    }
}

/// A request is retried at most `max_retries` times, so it is sent at most
/// `max_retries + 1` times, whatever errors come back.
pub proof fn lemma_retry_budget(policy: RetryPolicy, attempt: nat, errors: Seq<ClientError>)
    requires
        attempt <= policy.max_retries,
    ensures
        retries_taken(policy, attempt, errors) <= policy.max_retries - attempt,
    decreases errors.len(),
{
    if errors.len() > 0 && policy.retry_delay(attempt as u32, errors[0]) is Some {
        lemma_retry_budget(policy, attempt + 1, errors.drop_first());
    }
}

/// Errors that are not retryable end a request at once.
pub proof fn lemma_permanent_error_stops(policy: RetryPolicy, attempt: u32, e: ClientError)
    ensures
        !e.retryable() ==> policy.retry_delay(attempt, e) is None,
{
}

/// Only transient failures are sent again: whatever the policy and the
/// attempt, a retry follows an error only when it is a rate limit, an
/// unavailable service or a network failure. A response that could not be
/// decoded, a local I/O or URL failure, a builder misuse, an error the
/// server classified (401, 403, 404, 409, 413, other statuses) or any
/// other error ends the request at once.
pub proof fn lemma_only_transient_errors_retry(policy: RetryPolicy, attempt: u32, e: ClientError)
    ensures
        policy.retry_delay(attempt, e) is Some ==> (e is RateLimit || e is ServiceUnavailable
            || e is Network),
        (e is Decode || e is Io || e is Url || e is Builder || e is Other || e is Auth
            || e is Authorization || e is NotFound || e is Conflict || e is PayloadTooLarge
            || e is Server) ==> policy.retry_delay(attempt, e) is None,
        (e is RateLimit || e is ServiceUnavailable || e is Network) ==> (policy.retry_delay(
            attempt,
            e,
        ) is Some <==> attempt < policy.max_retries),
{
}

/// How a request goes on after attempt `attempt` failed with the error an
/// error response maps to: it is retried only on 429 and 503, and only
/// while the retry budget lasts; it then waits exactly the `Retry-After`
/// the server sent when that reads as seconds, and the back-off for the
/// attempt otherwise.
pub proof fn lemma_response_retry(
    policy: RetryPolicy,
    attempt: u32,
    e: ClientError,
    status: u16,
    retry_after: Option<Seq<char>>,
    api_err: Option<ApiError>,
    text: Seq<char>,
)
    requires
        classified(e, status, retry_after, api_err, text),
    ensures
        policy.retry_delay(attempt, e) == if attempt < policy.max_retries && (status == 429 || status
            == 503) {
            Some(
                match header_delay(retry_after) {
                    Some(d) => d,
                    None => backoff_nanos(attempt, policy.base@, policy.cap@),
                },
            )
        } else {
            None
        },
{
}

/// A request that failed in the network is retried after the back-off for
/// the attempt while the retry budget lasts.
pub proof fn lemma_network_retry(policy: RetryPolicy, attempt: u32, e: ClientError)
    requires
        e is Network,
    ensures
        policy.retry_delay(attempt, e) == if attempt < policy.max_retries {
            Some(backoff_nanos(attempt, policy.base@, policy.cap@))
        } else {
            None
        },
{
}

/// Reads a `Retry-After` header value.
///
/// The header may be either a delta-seconds integer or an HTTP-date. Only
/// the integer form (surrounding white space allowed) is understood;
/// anything else yields `None` and the caller falls back to back-off.
pub fn parse_retry_after(value: &str) -> (r: Option<TimeSpan>)
    ensures
        match retry_after_secs(value@) {
            Some(n) => r matches Some(t) && t@ == n * 1_000_000_000,
            None => r is None,
        },
{
    let chars = chars_of(value);
    let (lo, hi) = trim_bounds(&chars);
    match parse_u64_in(&chars, lo, hi) {
        Some(secs) => Some(TimeSpan::from_secs(secs)),
        None => None,
    }
}

} // verus!
