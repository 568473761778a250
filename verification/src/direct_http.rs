//! Decisions of direct HTTP downloads: which URLs they take, how long to
//! wait between retries, which statuses count as reachable, and how a
//! Content-Length header reads.
use vstd::prelude::*;

use crate::detector::is_http;
use crate::error::Error;
use crate::media_types::{DownloadStrategy, UrlDetectionResult};
use crate::text::{chars_of, int_text, nat_to_text, owned, push_str, starts_with};

verus! {

/// Direct HTTP handles the URL: an HTTP(S) URL under the direct HTTP
/// strategy, or under the NapCat stream strategy as its fallback.
pub open spec fn direct_http_handles(u: Seq<char>, strategy: DownloadStrategy) -> bool {
    (strategy == DownloadStrategy::DirectHttp || strategy == DownloadStrategy::NapCatStream)
        && is_http(u)
}

/// Downloader that fetches URLs directly over HTTP; it holds the request
/// timeout its HTTP client is built with.
#[derive(Debug, Clone, Copy, PartialEq, Eq, Structural)]
pub struct DirectHttpDownloader {
    /// Request timeout in seconds.
    pub timeout_secs: u64,
}

impl DirectHttpDownloader {
    /// A direct HTTP downloader with a 120 s timeout.
    pub fn new() -> (r: DirectHttpDownloader)
        ensures
            r.timeout_secs == 120,
    {
        DirectHttpDownloader { timeout_secs: 120 }
    }

    /// A direct HTTP downloader with the given timeout.
    pub fn with_timeout(timeout_secs: u64) -> (r: DirectHttpDownloader)
        ensures
            r.timeout_secs == timeout_secs,
    {
        DirectHttpDownloader { timeout_secs }
    }

    /// This downloader handles the URL (see `direct_http_handles`).
    pub fn can_handle(&self, url: &str, detection: &UrlDetectionResult) -> (r: bool)
        ensures
            r == direct_http_handles(url@, detection.strategy),
    {
        (detection.strategy == DownloadStrategy::DirectHttp || detection.strategy
            == DownloadStrategy::NapCatStream) && (starts_with(url, "http://") || starts_with(
            url,
            "https://",
        ))
    }

    /// Name of this downloader.
    pub fn name(&self) -> (r: &'static str)
        ensures
            r@ == "direct_http"@,
    {
        "direct_http"
    }

    /// The User-Agent its requests carry: `blockcell/<version>`, with
    /// `unknown` for a build without a version.
    pub fn user_agent(version: Option<&str>) -> (r: String)
        ensures
            r@ == "blockcell/"@ + match version {
                Some(v) => v@,
                None => "unknown"@,
            },
    {
        let mut r = owned("blockcell/");
        match version {
            Some(v) => push_str(&mut r, v),
            None => push_str(&mut r, "unknown"),
        }
        r
    }
}

impl Default for DirectHttpDownloader {
    fn default() -> (r: DirectHttpDownloader)
        ensures
            r.timeout_secs == 120,
    {
        DirectHttpDownloader::new()
    }
}

/// What follows a failed download attempt.
#[derive(Debug, Clone, Copy, PartialEq, Eq, Structural)]
pub enum RetryStep {
    /// Wait `wait_ms`, then try again; the wait after that is `next_delay_ms`.
    Retry { wait_ms: u64, next_delay_ms: u64 },
    /// No attempt is left.
    GiveUp,
}

/// The step after attempt `attempt` (counted from 0) of `max_retries` failed,
/// with `delay_ms` the current wait: retry while an attempt is left, waiting
/// `delay_ms` and doubling the wait up to 5000 ms.
pub fn after_failed_attempt(attempt: u32, max_retries: u32, delay_ms: u64) -> (r: RetryStep)
    requires
        attempt < max_retries,
        attempt + 1 < max_retries ==> delay_ms <= u64::MAX / 2,
    ensures
        attempt + 1 < max_retries ==> r == (RetryStep::Retry {
            wait_ms: delay_ms,
            next_delay_ms: next_delay(delay_ms),
        }),
        attempt + 1 >= max_retries ==> r == RetryStep::GiveUp,
{
    if attempt < max_retries - 1 {
        let doubled = delay_ms * 2;
        RetryStep::Retry { wait_ms: delay_ms, next_delay_ms: if doubled < 5000 {
            doubled
        } else {
            5000
        } }
    } else {
        RetryStep::GiveUp
    }
}

/// The error a download with retries ends in when every attempt failed: the
/// last attempt's error, or, when no attempt was made, the
/// `attempts_failed_error`.
pub fn exhausted_retries_error(last_error: Option<Error>, max_retries: u32) -> (r: Error)
    ensures
        match last_error {
            Some(e) => r == e,
            None => r matches Error::Channel(m) && m@ == "All "@ + int_text(max_retries as int)
                + " download attempts failed"@,
        },
{
    match last_error {
        Some(e) => e,
        None => attempts_failed_error(max_retries),
    }
}

/// The delay after one more failed attempt: doubled, at most 5000 ms.
pub open spec fn next_delay(d: u64) -> u64 {
    if 2 * d < 5000 {
        (2 * d) as u64
    } else {
        5000
    }
}

/// The waits (in ms) between `n` attempts that all fail: the first is `d`,
/// each next one doubles, capped at 5000 ms; no wait follows the last attempt.
pub open spec fn retry_delays(n: nat, d: u64) -> Seq<u64>
    decreases n,
{
    if n <= 1 {
        Seq::empty()
    } else {
        seq![d] + retry_delays((n - 1) as nat, next_delay(d))
    }
}

/// The waits between `max_retries` download attempts (see `retry_delays`):
/// after a failed attempt `k`, the download waits `r[k]` ms when there is
/// such an entry.
pub fn retry_delay_schedule(max_retries: u32, initial_delay_ms: u64) -> (r: Vec<u64>)
    requires
        max_retries >= 2 ==> initial_delay_ms <= u64::MAX / 2,
    ensures
        r@ == retry_delays(max_retries as nat, initial_delay_ms),
{
    let mut out: Vec<u64> = Vec::new();
    let mut delay = initial_delay_ms;
    let mut attempt: u32 = 0;
    while attempt + 1 < max_retries
        invariant
            attempt < max_retries || (max_retries == 0 && attempt == 0),
            attempt >= 1 ==> delay <= 5000,
            max_retries >= 2 ==> delay <= u64::MAX / 2,
            out@ + retry_delays((max_retries - attempt) as nat, delay) == retry_delays(
                max_retries as nat,
                initial_delay_ms,
            ),
        decreases max_retries - attempt,
    {
        let ghost before = out@;
        let ghost d = delay;
        out.push(delay);
        let doubled = delay * 2;
        delay = if doubled < 5000 {
            doubled
        } else {
            5000
        };
        assert(out@ + retry_delays((max_retries - attempt - 1) as nat, delay) =~= before
            + retry_delays((max_retries - attempt) as nat, d));
        attempt += 1;
    }
    assert(retry_delays((max_retries - attempt) as nat, delay) =~= Seq::<u64>::empty());
    assert(out@ =~= out@ + Seq::<u64>::empty());
    out
}

/// The error when no download attempt was made.
pub fn attempts_failed_error(max_retries: u32) -> (r: Error)
    ensures
        r matches Error::Channel(m) && m@ == "All "@ + int_text(max_retries as int)
            + " download attempts failed"@,
{
    let mut m = owned("All ");
    let n = nat_to_text(max_retries as u128);
    push_str(&mut m, n.as_str());
    push_str(&mut m, " download attempts failed");
    Error::Channel(m)
}

/// An HTTP status a reachability check accepts: success (2xx) or 302.
pub fn reachable_status(status: u16) -> (r: bool)
    ensures
        r == ((200 <= status && status <= 299) || status == 302),
{
    (200 <= status && status <= 299) || status == 302
}

/// An ASCII decimal digit.
pub open spec fn is_digit(c: char) -> bool {
    '0' <= c && c <= '9'
}

/// Value of a sequence of decimal digits.
pub open spec fn digits_value(s: Seq<char>) -> nat
    decreases s.len(),
{
    if s.len() == 0 {
        0
    } else {
        digits_value(s.drop_last()) * 10 + ((s.last() as u32) - ('0' as u32)) as nat
    }
}

/// The digits of a number: the text without one leading '+'.
pub open spec fn after_sign(s: Seq<char>) -> Seq<char> {
    if s.len() > 0 && s[0] == '+' {
        s.skip(1)
    } else {
        s
    }
}

/// Every character is a decimal digit.
pub open spec fn all_digits(d: Seq<char>) -> bool {
    forall|i: int| 0 <= i < d.len() ==> is_digit(#[trigger] d[i])
}

/// What `str::parse::<u64>` gives: an optional '+' then at least one decimal
/// digit, with a value that fits in 64 bits.
pub open spec fn u64_parsed(s: Seq<char>) -> Option<u64> {
    let d = after_sign(s);
    if d.len() > 0 && all_digits(d) && digits_value(d) <= u64::MAX {
        Some(digits_value(d) as u64)
    } else {
        None
    }
}

proof fn lemma_digits_value_prefix(s: Seq<char>, k: int)
    requires
        0 <= k <= s.len(),
        all_digits(s),
    ensures
        digits_value(s.take(k)) <= digits_value(s),
    decreases s.len(),
{
    if k < s.len() {
        assert(s.drop_last().take(k) =~= s.take(k));
        lemma_digits_value_prefix(s.drop_last(), k);
    } else {
        assert(s.take(k) =~= s);
    }
}

/// The number a Content-Length header value reads as (see `u64_parsed`).
pub fn parse_content_length(value: &str) -> (r: Option<u64>)
    ensures
        r == u64_parsed(value@),
{
    let v = chars_of(value);
    let start: usize = if v.len() > 0 && v[0] == '+' {
        1
    } else {
        0
    };
    let ghost d = after_sign(v@);
    assert(d =~= v@.skip(start as int));
    if start == v.len() {
        return None;
    }
    let mut acc: u64 = 0;
    let mut i: usize = start;
    while i < v.len()
        invariant
            start <= i <= v.len(),
            v@ == value@,
            d == v@.skip(start as int),
            d == after_sign(value@),
            d.len() > 0,
            forall|j: int| 0 <= j < i - start ==> is_digit(d[j]),
            acc as nat == digits_value(d.take(i - start)),
        decreases v.len() - i,
    {
        let c = v[i];
        assert(d[i - start] == c);
        if !('0' <= c && c <= '9') {
            assert(!is_digit(d[i - start]));
            assert(!all_digits(d));
            return None;
        }
        let digit = (c as u32 - '0' as u32) as u64;
        assert(d.take(i - start + 1).drop_last() =~= d.take(i - start));
        if acc > (u64::MAX - digit) / 10 {
            proof {
                assert(forall|j: int| 0 <= j < i - start + 1 ==> is_digit(d[j]));
                assert(digits_value(d.take(i - start + 1)) > u64::MAX) by (nonlinear_arith)
                    requires
                        digits_value(d.take(i - start + 1)) == acc * 10 + digit,
                        acc > (u64::MAX - digit) / 10,
                        digit <= 9,
                ;
                if all_digits(d) {
                    lemma_digits_value_prefix(d, i - start + 1);
                    assert(digits_value(d) > u64::MAX);
                }
                assert(u64_parsed(value@) == None::<u64>);
            }
            return None;
        }
        acc = acc * 10 + digit;
        i += 1;
    }
    assert(d.take(d.len() as int) =~= d);
    Some(acc)
}

/// The waits between `n` attempts of a download with retries: one fewer
/// than the attempts; the first is the initial delay, and each next one is
/// what `after_failed_attempt` steps to from the one before (doubled, capped
/// at 5000 ms), so no wait after the first exceeds 5000 ms.
pub proof fn law_retry_delays(n: nat, d: u64)
    ensures
        retry_delays(n, d).len() == (if n <= 1 {
            0
        } else {
            n - 1
        }),
        n >= 2 ==> retry_delays(n, d)[0] == d,
        forall|k: int|
            1 <= k < retry_delays(n, d).len() ==> #[trigger] retry_delays(n, d)[k] == next_delay(
                retry_delays(n, d)[k - 1],
            ) && retry_delays(n, d)[k] <= 5000,
    decreases n,
{
    if n >= 2 {
        law_retry_delays((n - 1) as nat, next_delay(d));
        let r = retry_delays(n, d);
        let t = retry_delays((n - 1) as nat, next_delay(d));
        assert(r =~= seq![d] + t);
        assert forall|k: int| 1 <= k < r.len() implies #[trigger] r[k] == next_delay(r[k - 1]) && r[k]
            <= 5000 by {
            assert(r[k] == t[k - 1]);
            if k >= 2 {
                assert(r[k - 1] == t[k - 2]);
                assert(t[k - 1] == next_delay(t[k - 2]));
            }
        }
    }
}

} // verus!
