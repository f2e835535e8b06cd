//! The rate-limit and retry policy shared by model backends: when to retry,
//! how long to back off (exponentially, with jitter, capped), and how to
//! read a `Retry-After` header.  Sleeping is the embedding application's
//! business; this module only computes the decisions.

use vstd::prelude::*;

use crate::config::LlmProfile;
use crate::text::{spec_parse_u64, parse_u64, contains_sub, str_eq};

verus! {

/// What one rate-limited response told us, plus which attempt this was.
pub struct RateLimitInfo {
    pub retry_after_seconds: Option<u64>,
    pub remaining_requests: Option<u64>,
    pub reset_time: Option<u64>,
    pub provider: String,
    pub attempt_count: u32,
}

// ---------------------------------------------------------------------------
// Trusted boundary
// ---------------------------------------------------------------------------

/// What parsing an HTTP-date yields: the named time as seconds since the
/// Unix epoch, or nothing for a text in none of the three RFC 7231 formats
/// or naming a time before the epoch.
pub uninterp spec fn http_date_unix_of(s: Seq<char>) -> Option<u64>;

/// Relies on httpdate::parse_http_date: parses a text in one of the three
/// RFC 7231 date formats; the result depends on the text alone and is
/// converted to seconds since the Unix epoch.
#[verifier::external_body]
fn parse_http_date_unix(s: &str) -> (r: Option<u64>)
    ensures
        r == http_date_unix_of(s@),
{
    httpdate::parse_http_date(s).ok().and_then(|t| t.duration_since(std::time::UNIX_EPOCH).ok()).map(
        |d| d.as_secs(),
    )
}

/// Relies on fastrand::u64: a number drawn from the inclusive range.
/// Nothing is assumed of the draw beyond its bounds.
#[verifier::external_body]
fn random_in(lo: u64, hi: u64) -> (r: u64)
    requires
        lo <= hi,
    ensures
        lo <= r <= hi,
{
    fastrand::u64(lo..=hi)
}

// ---------------------------------------------------------------------------
// Backoff
// ---------------------------------------------------------------------------

/// Natural-number exponentiation.
pub open spec fn spec_pow(base: nat, e: nat) -> nat
    decreases e,
{
    if e == 0 {
        1
    } else {
        base * spec_pow(base, (e - 1) as nat)
    }
}

/// The backoff delay in seconds for one attempt, given the jitter draw:
/// attempt 0 waits one second; attempt `n` waits `base^n`, moved by up to a
/// quarter of that in either direction, and never more than 60 seconds.
pub open spec fn spec_backoff(base: nat, attempt: nat, jitter: nat) -> nat {
    if attempt == 0 {
        1
    } else {
        let d = spec_pow(base, attempt);
        let range = d / 4;
        let j = if jitter > 2 * range {
            2 * range
        } else {
            jitter
        };
        let moved = d + j - range;
        if moved > 60 {
            60
        } else {
            moved as nat
        }
    }
}

proof fn lemma_pow_grows(base: nat, e1: nat, e2: nat)
    requires
        base >= 1,
        e1 <= e2,
    ensures
        spec_pow(base, e1) <= spec_pow(base, e2),
    decreases e2 - e1,
{
    if e1 < e2 {
        lemma_pow_grows(base, e1, (e2 - 1) as nat);
        let p = spec_pow(base, (e2 - 1) as nat);
        assert(p <= base * p) by (nonlinear_arith)
            requires
                base >= 1,
                p >= 0,
        ;
    }
}

/// Raises `base` to `attempt`, stopping as soon as the power reaches 80;
/// beyond that bound every jitter outcome is capped to 60 seconds anyway.
fn pow_capped(base: u32, attempt: u32) -> (r: u64)
    ensures
        r as nat == spec_pow(base as nat, attempt as nat) || (80 <= r
            && spec_pow(base as nat, attempt as nat) >= r),
        r < 0x50_0000_0000,
{
    let mut acc: u64 = 1;
    let mut i: u32 = 0;
    while i < attempt && acc < 80
        invariant
            0 <= i <= attempt,
            acc as nat == spec_pow(base as nat, i as nat),
            acc < 80 * 4294967296,
        decreases attempt - i,
    {
        proof {
            assert((acc * base) as nat == spec_pow(base as nat, (i + 1) as nat)) by (
            nonlinear_arith)
                requires
                    acc as nat == spec_pow(base as nat, i as nat),
                    spec_pow(base as nat, (i + 1) as nat) == (base as nat) * spec_pow(
                        base as nat,
                        i as nat,
                    ),
            ;
            assert(acc * base < 80 * 4294967296) by (nonlinear_arith)
                requires
                    acc < 80,
                    base < 4294967296,
            ;
        }
        acc = acc * (base as u64);
        i = i + 1;
    }
    if i < attempt {
        // stopped early: the true power is at least this partial one
        proof {
            assert(acc >= 80);
            assert(base >= 2) by {
                if base == 0 {
                    assert(spec_pow(0, i as nat) == 0 || spec_pow(0, i as nat) == 1) by {
                        lemma_pow_zero_base(i as nat);
                    }
                } else if base == 1 {
                    lemma_pow_one_base(i as nat);
                }
            }
            lemma_pow_grows(base as nat, i as nat, attempt as nat);
        }
    }
    acc
}

proof fn lemma_pow_zero_base(e: nat)
    ensures
        spec_pow(0, e) == if e == 0 {
            1nat
        } else {
            0nat
        },
    decreases e,
{
    if e > 0 {
        lemma_pow_zero_base((e - 1) as nat);
    }
}

proof fn lemma_pow_one_base(e: nat)
    ensures
        spec_pow(1, e) == 1,
    decreases e,
{
    if e > 0 {
        lemma_pow_one_base((e - 1) as nat);
    }
}

/// The backoff delay for one attempt with the jitter draw given: exactly
/// `spec_backoff`.
pub fn backoff_delay_with(base: u32, attempt: u32, jitter: u64) -> (r: u64)
    ensures
        r as nat == spec_backoff(base as nat, attempt as nat, jitter as nat),
{
    if attempt == 0 {
        return 1;
    }
    let d = pow_capped(base, attempt);
    let range = d / 4;
    let j = if jitter > 2 * range {
        2 * range
    } else {
        jitter
    };
    let moved = d + j - range;
    let r = if moved > 60 {
        60
    } else {
        moved
    };
    proof {
        let dt = spec_pow(base as nat, attempt as nat);
        if d as nat != dt {
            // the power was capped: every outcome is 60 both ways
            assert(d >= 80 && dt >= d as nat);
            assert(moved >= d - range);
            let ranget = dt / 4;
            let jt = if jitter as nat > 2 * ranget {
                2 * ranget
            } else {
                jitter as nat
            };
            assert(dt + jt - ranget >= dt - ranget);
        }
    }
    r
}

/// Handles rate limiting and retry decisions for model calls.
pub struct RateLimitHandler {
    pub profile: LlmProfile,
}

impl RateLimitHandler {
    /// A handler for the given profile.
    pub fn new(profile: LlmProfile) -> (r: RateLimitHandler)
        ensures
            r.profile == profile,
    {
        RateLimitHandler { profile }
    }

    /// Whether one more retry is allowed after `attempt_count` attempts.
    pub fn should_retry(&self, attempt_count: u32) -> (r: bool)
        ensures
            r == (attempt_count < self.profile.spec_max_retries()),
    {
        attempt_count < self.profile.get_max_retries()
    }

    /// The backoff delay for one attempt, with a fresh jitter draw:
    /// some jitter outcome of `spec_backoff`, never more than 60 seconds.
    pub fn calculate_backoff_delay(&self, attempt_count: u32) -> (r: u64)
        ensures
            attempt_count == 0 ==> r == 1,
            exists|j: nat|
                r as nat == spec_backoff(
                    self.profile.spec_retry_backoff_base() as nat,
                    attempt_count as nat,
                    j,
                ),
            r <= 60,
    {
        let base = self.profile.get_retry_backoff_base();
        if attempt_count == 0 {
            proof {
                let witness = spec_backoff(base as nat, 0, 0);
                assert(witness == 1);
            }
            return 1;
        }
        let d = pow_capped(base, attempt_count);
        let range = d / 4;
        let jitter = random_in(0, 2 * range);
        let r = backoff_delay_with(base, attempt_count, jitter);
        proof {
            assert(r as nat == spec_backoff(base as nat, attempt_count as nat, jitter as nat));
        }
        r
    }

    /// Reads a `Retry-After` value against the given clock: an integer text
    /// is that many seconds; an HTTP-date strictly in the future is the
    /// seconds until it; anything else is nothing.
    pub fn retry_after_seconds(header: &str, now_unix: u64) -> (r: Option<u64>)
        ensures
            r == spec_retry_after(header@, now_unix),
    {
        match parse_u64(header) {
            Some(secs) => Some(secs),
            None => {
                match parse_http_date_unix(header) {
                    Some(t) => {
                        if t > now_unix {
                            Some(t - now_unix)
                        } else {
                            None
                        }
                    },
                    None => None,
                }
            },
        }
    }

    /// Reads a `Retry-After` value against the current clock.
    pub fn parse_retry_after_header(&self, retry_after: &str) -> (r: Option<u64>)
        ensures
            exists|now: u64| r == spec_retry_after(retry_after@, now),
    {
        let now = now_unix_secs();
        let r = Self::retry_after_seconds(retry_after, now);
        proof {
            assert(r == spec_retry_after(retry_after@, now));
        }
        r
    }

    /// Gathers the rate-limit signals of one failed call, each header value
    /// handed in as text, into a `RateLimitInfo`.  The `Retry-After` value
    /// is interpreted against one reading of the clock.
    pub fn extract_rate_limit_info(
        &self,
        retry_after: Option<&str>,
        remaining: Option<&str>,
        reset: Option<&str>,
        attempt_count: u32,
    ) -> (r: RateLimitInfo)
        ensures
            match retry_after {
                Some(h) => exists|now: u64| r.retry_after_seconds == spec_retry_after(h@, now),
                None => r.retry_after_seconds is None,
            },
            r.remaining_requests == match remaining {
                Some(h) => spec_parse_u64(h@),
                None => None::<u64>,
            },
            r.reset_time == match reset {
                Some(h) => spec_parse_u64(h@),
                None => None::<u64>,
            },
            r.provider@ == self.profile.backend@,
            r.attempt_count == attempt_count,
    {
        let now = now_unix_secs();
        let retry_after_seconds = match retry_after {
            Some(h) => {
                let v = Self::retry_after_seconds(h, now);
                proof {
                    assert(v == spec_retry_after(h@, now));
                }
                v
            },
            None => None,
        };
        let remaining_requests = match remaining {
            Some(h) => parse_u64(h),
            None => None,
        };
        let reset_time = match reset {
            Some(h) => parse_u64(h),
            None => None,
        };
        RateLimitInfo {
            retry_after_seconds,
            remaining_requests,
            reset_time,
            provider: self.profile.backend.clone(),
            attempt_count,
        }
    }

    /// The retry decision for one rate-limited call: when a retry is still
    /// allowed, how many seconds to sleep first — the server's own
    /// `Retry-After` when it gave one, else the computed backoff; when the
    /// retries are spent, the typed rate-limit error.
    pub fn handle_rate_limit_error(&self, rate_limit_info: RateLimitInfo) -> (r: Result<
        u64,
        crate::chat::LlmError,
    >)
        ensures
            match r {
                Ok(delay) => rate_limit_info.attempt_count < self.profile.spec_max_retries()
                    && match rate_limit_info.retry_after_seconds {
                    Some(s) => delay == s,
                    None => delay <= 60 && exists|j: nat|
                        delay as nat == spec_backoff(
                            self.profile.spec_retry_backoff_base() as nat,
                            rate_limit_info.attempt_count as nat,
                            j,
                        ),
                },
                Err(e) => rate_limit_info.attempt_count >= self.profile.spec_max_retries() && match e {
                    crate::chat::LlmError::RateLimit(info) => info == rate_limit_info,
                    _ => false,
                },
            },
    {
        let attempt_count = rate_limit_info.attempt_count;
        if !self.should_retry(attempt_count) {
            return Err(crate::chat::LlmError::RateLimit(rate_limit_info));
        }
        let delay = match rate_limit_info.retry_after_seconds {
            Some(s) => s,
            None => self.calculate_backoff_delay(attempt_count),
        };
        Ok(delay)
    }

    /// Whether an HTTP status code is the rate-limit status.
    pub fn is_rate_limit_error(status: u16) -> (r: bool)
        ensures
            r == (status == 429),
    {
        status == 429
    }

    /// Whether a provider's error text reports rate limiting, by that
    /// provider's own wording.
    pub fn parse_rate_limit_error(&self, error_text: &str) -> (r: bool)
        ensures
            r == spec_is_rate_limit_message(self.profile.backend@, error_text@),
    {
        let backend = self.profile.backend.as_str();
        if str_eq(backend, "openai") {
            contains_sub(error_text, "rate_limit_error") || contains_sub(error_text, "rate limit")
                || contains_sub(error_text, "quota_exceeded")
        } else if str_eq(backend, "anthropic") {
            contains_sub(error_text, "rate_limit_error") || contains_sub(error_text, "rate limit")
                || contains_sub(error_text, "too_many_requests")
        } else if str_eq(backend, "gemini") {
            contains_sub(error_text, "RESOURCE_EXHAUSTED") || contains_sub(error_text, "quota")
                || contains_sub(error_text, "rate limit")
        } else if str_eq(backend, "ollama") {
            contains_sub(error_text, "rate limit") || contains_sub(error_text, "too many requests")
        } else {
            contains_sub(error_text, "rate limit") || contains_sub(error_text, "too many requests")
                || contains_sub(error_text, "429")
        }
    }
}

/// What a `Retry-After` value means against the given clock.
pub open spec fn spec_retry_after(header: Seq<char>, now_unix: u64) -> Option<u64> {
    match spec_parse_u64(header) {
        Some(secs) => Some(secs),
        None => match http_date_unix_of(header) {
            Some(t) => if t > now_unix {
                Some((t - now_unix) as u64)
            } else {
                None
            },
            None => None,
        },
    }
}

/// Whether an error text reports rate limiting, by provider wording.
pub open spec fn spec_is_rate_limit_message(backend: Seq<char>, t: Seq<char>) -> bool {
    if backend == "openai"@ {
        crate::text::spec_contains(t, "rate_limit_error"@) || crate::text::spec_contains(
            t,
            "rate limit"@,
        ) || crate::text::spec_contains(t, "quota_exceeded"@)
    } else if backend == "anthropic"@ {
        crate::text::spec_contains(t, "rate_limit_error"@) || crate::text::spec_contains(
            t,
            "rate limit"@,
        ) || crate::text::spec_contains(t, "too_many_requests"@)
    } else if backend == "gemini"@ {
        crate::text::spec_contains(t, "RESOURCE_EXHAUSTED"@) || crate::text::spec_contains(
            t,
            "quota"@,
        ) || crate::text::spec_contains(t, "rate limit"@)
    } else if backend == "ollama"@ {
        crate::text::spec_contains(t, "rate limit"@) || crate::text::spec_contains(
            t,
            "too many requests"@,
        )
    } else {
        crate::text::spec_contains(t, "rate limit"@) || crate::text::spec_contains(
            t,
            "too many requests"@,
        ) || crate::text::spec_contains(t, "429"@)
    }
}

/// The current time as seconds since the Unix epoch, never negative.
pub(crate) fn now_unix_secs() -> u64 {
    let ms = crate::chat::now_timestamp_ms();
    if ms <= 0 {
        0
    } else {
        (ms as u64) / 1000
    }
}

} // verus!
