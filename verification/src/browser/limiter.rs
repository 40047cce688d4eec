//! Spacing between requests.
//!
//! Not a throughput limit: it is about shape. A model looping over a shopping list, or
//! concurrent calls, would otherwise arrive as a burst.

use crate::text;
use vstd::prelude::*;

verus! {

/// The smallest gap between two requests, in milliseconds, unless told otherwise.
pub const DEFAULT_MIN_REQUEST_INTERVAL_MS: u64 = 500;

/// Spaces requests out so that concurrent callers queue. Times are in nanoseconds since
/// any fixed moment. Whoever uses it serialises its callers: one waits and is granted
/// before the next asks.
#[derive(Debug)]
pub struct RateLimiter {
    /// The smallest gap between two requests; none at all where it is zero.
    pub min_interval: u128,
    /// When the next request may go out; `None` until the first one.
    pub next_allowed: Option<u128>,
}

impl RateLimiter {
    /// How long a caller that asks at `now` has to wait.
    pub open spec fn wait_at(self, now: u128) -> u128 {
        match self.next_allowed {
            Some(next) if self.min_interval > 0 && next > now => (next - now) as u128,
            _ => 0,
        }
    }

    /// After a request that went out at `at`.
    pub open spec fn granted_at(self, at: u128) -> RateLimiter {
        if self.min_interval == 0 {
            self
        } else {
            RateLimiter { next_allowed: Some((at + self.min_interval) as u128), ..self }
        }
    }

    pub fn new(min_interval: u128) -> (r: RateLimiter)
        ensures
            r == (RateLimiter { min_interval, next_allowed: None }),
    {
        RateLimiter { min_interval, next_allowed: None }
    }

    /// How long a caller that asks at `now` has to wait. One that arrives late has already
    /// waited; only an early one sleeps.
    pub fn wait(&self, now: u128) -> (r: u128)
        ensures
            r == self.wait_at(now),
    {
        if self.min_interval == 0 {
            return 0;
        }
        match self.next_allowed {
            Some(next) => {
                if next > now {
                    next - now
                } else {
                    0
                }
            },
            None => 0,
        }
    }

    /// A request goes out at `now`.
    pub fn granted(&mut self, now: u128)
        requires
            now + old(self).min_interval <= u128::MAX,
        ensures
            *final(self) == old(self).granted_at(now),
    {
        if self.min_interval != 0 {
            self.next_allowed = Some(now + self.min_interval);
        }
    }
}

/// Two requests in a row are at least the interval apart, whenever the second is asked
/// for.
pub proof fn requests_are_spaced(limiter: RateLimiter, first: u128, asked: u128, second: u128)
    requires
        first + limiter.min_interval <= u128::MAX,
        first <= asked,
        second >= asked + limiter.granted_at(first).wait_at(asked),
    ensures
        second >= first + limiter.min_interval,
{
}

/// The first request is not delayed, nor one that comes late, and an interval of zero
/// delays none.
pub proof fn no_idle_waiting(limiter: RateLimiter, now: u128)
    ensures
        limiter.next_allowed is None ==> limiter.wait_at(now) == 0,
        limiter.next_allowed matches Some(next) && next <= now ==> limiter.wait_at(now) == 0,
        limiter.min_interval == 0 ==> limiter.wait_at(now) == 0,
{
}

/// The interval that `K_RUOKA_MIN_REQUEST_INTERVAL_MS` asks for, and what to warn of.
#[derive(Debug)]
pub struct Interval {
    pub millis: u64,
    pub warning: Option<String>,
}

/// What is said of a value that is not a number.
pub open spec fn not_millis(raw: Seq<char>) -> Seq<char> {
    "k-ruoka-mcp: K_RUOKA_MIN_REQUEST_INTERVAL_MS="@ + text::debug_quoted(raw)
        + " is not a number of milliseconds; using the default"@
}

/// The interval that `raw`, where it is set, asks for. A typo does not remove the limit:
/// it gets the default, and a warning.
pub fn min_request_interval(raw: Option<&str>) -> (r: Interval)
    ensures
        raw is None ==> r.millis == DEFAULT_MIN_REQUEST_INTERVAL_MS && r.warning is None,
        raw matches Some(t) ==> match text::parsed(text::trimmed(t@)) {
            Some(ms) => r.millis == ms && r.warning is None,
            None => {
                &&& r.millis == DEFAULT_MIN_REQUEST_INTERVAL_MS
                &&& r.warning matches Some(w) && w@ == not_millis(t@)
            },
        },
{
    match raw {
        Some(t) => match text::parse_number(text::trim(t)) {
            Some(millis) => Interval { millis, warning: None },
            None => {
                let mut w = "k-ruoka-mcp: K_RUOKA_MIN_REQUEST_INTERVAL_MS=".to_owned();
                let raw = text::debug_quote(t);
                w.append(raw.as_str());
                w.append(" is not a number of milliseconds; using the default");
                Interval { millis: DEFAULT_MIN_REQUEST_INTERVAL_MS, warning: Some(w) }
            },
        },
        None => Interval { millis: DEFAULT_MIN_REQUEST_INTERVAL_MS, warning: None },
    }
}

/// A caller waits exactly as long as it has to: until the next request may go out, or not at
/// all where that moment has passed.
pub proof fn a_caller_waits_no_longer_than_it_has_to(limiter: RateLimiter, now: u128, next: u128)
    requires
        limiter.min_interval > 0,
        limiter.next_allowed == Some(next),
    ensures
        now + limiter.wait_at(now) == (if next > now {
            next as int
        } else {
            now as int
        }),
{
}

/// After a request the next may go out one interval later, and the interval stays as it is.
pub proof fn a_request_puts_off_the_next(limiter: RateLimiter, at: u128)
    requires
        at + limiter.min_interval <= u128::MAX,
    ensures
        limiter.granted_at(at).min_interval == limiter.min_interval,
        limiter.min_interval > 0 ==> (limiter.granted_at(at).next_allowed matches Some(next) && next
            == at + limiter.min_interval),
        limiter.min_interval == 0 ==> limiter.granted_at(at).next_allowed == limiter.next_allowed,
{
}

/// A value that is no number is named in the warning, where it is plain.
pub proof fn a_bad_interval_is_named(raw: Seq<char>)
    requires
        text::is_plain(raw),
    ensures
        text::occurs(not_millis(raw), raw),
{
    text::plain_text_is_shown(
        "k-ruoka-mcp: K_RUOKA_MIN_REQUEST_INTERVAL_MS="@,
        raw,
        " is not a number of milliseconds; using the default"@,
    );
}

/// Unless told otherwise, two requests are half a second apart.
pub proof fn requests_are_half_a_second_apart(limiter: RateLimiter, first: u128, asked: u128, second: u128)
    requires
        limiter.min_interval == DEFAULT_MIN_REQUEST_INTERVAL_MS * 1_000_000,
        first + limiter.min_interval <= u128::MAX,
        first <= asked,
        second >= asked + limiter.granted_at(first).wait_at(asked),
    ensures
        second >= first + 500_000_000,
{
}

} // verus!
