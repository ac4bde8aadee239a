//! Response classification, retry verdicts, the circuit breaker, and the
//! request framing the HTTP client applies around each round trip.

use crate::auth::oauth2::pair_views;
use crate::error::{Error, HttpError, Result};
use crate::http::retry::{spec_delay, RetryConfig};
use crate::text::{decimal, decimal_string, form_encode, seq_join, str_eq};
use vstd::prelude::*;
use vstd::string::StringExecFns;
use vstd::utf8::encode_utf8;

verus! {

/// The string at `/error/message` of a JSON body (Google's error envelope),
/// when the body parses as JSON and that member is a string.
pub uninterp spec fn json_error_message(body: Seq<u8>) -> Option<Seq<char>>;

/// Reads Google's error message out of a response body.
///
/// Calls `serde_json::from_slice::<serde_json::Value>` and then
/// `Value::pointer("/error/message")` and `Value::as_str`; the contract names
/// the outcome `json_error_message(body)`, a function of the bytes alone.
#[verifier::external_body]
fn extract_error_message(body: &[u8]) -> (r: Option<String>)
    ensures
        match r {
            Some(m) => json_error_message(body@) == Some(m@),
            None => json_error_message(body@).is_none(),
        },
{
    let json: serde_json::Value = serde_json::from_slice(body).ok()?;
    json.pointer("/error/message").and_then(|m| m.as_str()).map(String::from)
}

/// Whether a body is one well-formed JSON document (what
/// `serde_json::from_slice::<serde_json::Value>` accepts).
pub uninterp spec fn json_parses(body: Seq<u8>) -> bool;

/// Parses a response body as a JSON document to attach to an API error.
///
/// Calls `serde_json::from_slice::<serde_json::Value>(body).ok()`: a
/// document comes back exactly when the body parses, a function of the bytes
/// alone (named `json_parses`). The document itself is opaque here.
#[verifier::external_body]
fn json_details(body: &[u8]) -> (r: Option<serde_json::Value>)
    ensures
        r.is_some() == json_parses(body@),
{
    serde_json::from_slice(body).ok()
}

/// The message of an error response, or a default when the body carries none.
pub open spec fn message_or(m: Option<Seq<char>>, default: Seq<char>) -> Seq<char> {
    match m {
        Some(x) => x,
        None => default,
    }
}

/// Whether a status is a client or server error other than the ones with a
/// dedicated error kind.
pub open spec fn generic_api_status(status: u16) -> bool {
    (400 <= status <= 599) && status != 401 && status != 403 && status != 404 && status != 429
}

/// Maps an HTTP status and body to the request's result: success for 2xx,
/// a dedicated error kind for 401, 403, 404 and 429, `Error::Api` otherwise.
pub fn check_response(status: u16, retry_after: Option<u64>, body: &[u8]) -> (r: Result<Vec<u8>>)
    ensures
        r is Ok <==> 200 <= status <= 299,
        r matches Ok(v) ==> v@ == body@,
        status == 401 ==> (r matches Err(Error::AuthRequired(m)) && m@ == message_or(
            json_error_message(body@),
            "unauthorized"@,
        )),
        status == 403 ==> (r matches Err(Error::PermissionDenied(m)) && m@ == message_or(
            json_error_message(body@),
            "forbidden"@,
        )),
        status == 404 ==> (r matches Err(Error::NotFound(m)) && m@ == message_or(
            json_error_message(body@),
            "not found"@,
        )),
        status == 429 ==> (r matches Err(Error::RateLimited { retry_after_secs: a }) && a
            == retry_after),
        generic_api_status(status) ==> (r matches Err(Error::Api { status: s, message: m, details: d })
            && s == status && d.is_some() == json_parses(body@) && m@ == message_or(
            json_error_message(body@),
            "HTTP "@ + decimal(status as nat),
        )),
        !(200 <= status <= 599) || (300 <= status <= 399) ==> (r matches Err(
            Error::Api { status: s, message: m, details: d },
        ) && s == status && m@ == "unexpected status "@ + decimal(status as nat) && d.is_none()),
{
    if 200 <= status && status <= 299 {
        let mut v: Vec<u8> = Vec::new();
        let mut i: usize = 0;
        while i < body.len()
            invariant
                i <= body@.len(),
                v@ == body@.take(i as int),
            decreases body.len() - i,
        {
            v.push(body[i]);
            assert(body@.take(i + 1) =~= body@.take(i as int).push(body@[i as int]));
            i = i + 1;
        }
        assert(body@.take(body@.len() as int) =~= body@);
        Ok(v)
    } else if status == 401 {
        Err(Error::AuthRequired(match extract_error_message(body) {
            Some(m) => m,
            None => "unauthorized".to_owned(),
        }))
    } else if status == 403 {
        Err(Error::PermissionDenied(match extract_error_message(body) {
            Some(m) => m,
            None => "forbidden".to_owned(),
        }))
    } else if status == 404 {
        Err(Error::NotFound(match extract_error_message(body) {
            Some(m) => m,
            None => "not found".to_owned(),
        }))
    } else if status == 429 {
        Err(Error::RateLimited { retry_after_secs: retry_after })
    } else if 400 <= status && status <= 599 {
        let message = match extract_error_message(body) {
            Some(m) => m,
            None => {
                let mut m = String::from_str("HTTP ");
                let digits = decimal_string(status as u64);
                m.append(digits.as_str());
                m
            },
        };
        Err(Error::Api { status, message, details: json_details(body) })
    } else {
        let mut message = String::from_str("unexpected status ");
        let digits = decimal_string(status as u64);
        message.append(digits.as_str());
        Err(Error::Api { status, message, details: None })
    }
}

/// Whether a failed attempt is worth another try: rate limiting and server
/// errors while their own budgets last, connection failures always.
pub open spec fn retryable(e: Error, attempt: u32, c: RetryConfig) -> bool {
    match e {
        Error::RateLimited { .. } => attempt < c.max_429_retries,
        Error::Api { status, .. } => status >= 500 && attempt < c.max_5xx_retries,
        Error::Http(HttpError::Connection(_)) => true,
        _ => false,
    }
}

/// Only rate limiting, server errors and connection failures are ever
/// retried: an API error below 500 (a 4xx such as 400 Bad Request) and
/// every other kind of error fail the request at once, whatever the attempt
/// and the configuration; and no error is retried once its budget (the
/// 429 or 5xx allowance) is spent.
pub proof fn lemma_only_transient_errors_retried(e: Error, attempt: u32, c: RetryConfig)
    ensures
        (e matches Error::Api { status, .. } && status < 500) ==> !retryable(e, attempt, c),
        retryable(e, attempt, c) ==> (e is RateLimited || (e matches Error::Api { status, .. } && status >= 500)
            || (e matches Error::Http(HttpError::Connection(_)))),
        (e is RateLimited && attempt >= c.max_429_retries) ==> !retryable(e, attempt, c),
        (e is Api && attempt >= c.max_5xx_retries) ==> !retryable(e, attempt, c),
{
}

/// Whether the error of attempt `attempt` (0-indexed) should be retried.
pub fn should_retry(e: &Error, attempt: u32, config: &RetryConfig) -> (r: bool)
    ensures
        r == retryable(*e, attempt, *config),
        (e matches Error::Api { status, .. } && status < 500) ==> !r,
        r ==> (e is RateLimited || e is Api || e is Http),
{
    match e {
        Error::RateLimited { .. } => attempt < config.max_429_retries,
        Error::Api { status, .. } => *status >= 500 && attempt < config.max_5xx_retries,
        Error::Http(HttpError::Connection(_)) => true,
        _ => false,
    }
}

/// What to do after one attempt of a request.
#[derive(Debug)]
pub enum AttemptVerdict {
    /// The attempt succeeded: record the success and return the body.
    Succeeded(Vec<u8>),
    /// The attempt failed but another one is allowed: wait, then try again.
    Retry(Error),
    /// The request failed for good: record the failure and return the error.
    GiveUp(Error),
}

/// Judges attempt `attempt` (0-indexed) of a request allowed
/// `max_retries + 1` attempts in all.
pub fn judge_attempt(config: &RetryConfig, attempt: u32, outcome: Result<Vec<u8>>) -> (v: AttemptVerdict)
    requires
        attempt <= config.max_retries,
    ensures
        match outcome {
            Ok(b) => v == AttemptVerdict::Succeeded(b),
            Err(e) => if retryable(e, attempt, *config) && attempt < config.max_retries {
                v == AttemptVerdict::Retry(e)
            } else {
                v == AttemptVerdict::GiveUp(e)
            },
        },
        (outcome matches Err(Error::Api { status, .. }) && status < 500) ==> v is GiveUp,
{
    proof {
        if outcome is Err {
            lemma_only_transient_errors_retried(outcome->Err_0, attempt, *config);
        }
    }
    match outcome {
        Ok(b) => AttemptVerdict::Succeeded(b),
        Err(e) => {
            if should_retry(&e, attempt, config) && attempt < config.max_retries {
                AttemptVerdict::Retry(e)
            } else {
                AttemptVerdict::GiveUp(e)
            }
        },
    }
}

/// The delay before attempt `attempt`: none before the first one.
pub fn delay_before_attempt(config: &RetryConfig, attempt: u32) -> (d: Option<u64>)
    ensures
        attempt == 0 <==> d.is_none(),
        d matches Some(x) ==> exists|r: u64| x == spec_delay(*config, attempt as nat, r as int),
{
    if attempt > 0 {
        Some(config.delay_for_attempt(attempt))
    } else {
        None
    }
}

/// Consecutive failures after which the breaker opens.
pub const FAILURE_THRESHOLD: u32 = 5;

/// How long, in milliseconds, an open breaker refuses requests.
pub const OPEN_INTERVAL_MS: u64 = 30_000;

/// Circuit breaker state for a service endpoint.
#[derive(Debug, Clone, Copy, PartialEq, Eq)]
pub enum CircuitState {
    Closed,
    Open { until_ms: u64 },
    HalfOpen,
}

/// Circuit breaker: failure count and state, on a millisecond clock.
#[derive(Debug, Clone, Copy)]
pub struct CircuitBreaker {
    pub failures: u32,
    pub state: CircuitState,
}

/// The breaker after a check at `now_ms`, and whether the request may go:
/// an open breaker whose interval has passed turns half-open and lets it go.
pub open spec fn checked(b: CircuitBreaker, now_ms: int) -> (CircuitBreaker, bool) {
    match b.state {
        CircuitState::Open { until_ms } => if now_ms >= until_ms {
            (CircuitBreaker { state: CircuitState::HalfOpen, ..b }, true)
        } else {
            (b, false)
        },
        _ => (b, true),
    }
}

/// The breaker after a success: no failures, closed.
pub open spec fn succeeded(b: CircuitBreaker) -> CircuitBreaker {
    CircuitBreaker { failures: 0, state: CircuitState::Closed }
}

/// The breaker after a failure at `now_ms`: one more failure, and open for
/// the open interval once the threshold is reached.
pub open spec fn failed(b: CircuitBreaker, now_ms: int) -> CircuitBreaker {
    let n = b.failures + 1;
    if n >= FAILURE_THRESHOLD {
        CircuitBreaker { failures: n as u32, state: CircuitState::Open { until_ms: (now_ms + OPEN_INTERVAL_MS) as u64 } }
    } else {
        CircuitBreaker { failures: n as u32, ..b }
    }
}

impl CircuitBreaker {
    /// A closed breaker with no failures.
    pub fn new() -> (b: Self)
        ensures
            b.failures == 0,
            b.state == CircuitState::Closed,
    {
        CircuitBreaker { failures: 0, state: CircuitState::Closed }
    }

    /// Checks whether a request to `service` may go at `now_ms`; refused with
    /// `Error::CircuitBreakerOpen` while the breaker is open.
    pub fn check(&mut self, service: &str, now_ms: u64) -> (r: Result<()>)
        ensures
            *final(self) == checked(*old(self), now_ms as int).0,
            r is Ok <==> checked(*old(self), now_ms as int).1,
            r matches Err(e) ==> (e matches Error::CircuitBreakerOpen { service: s } && s@ == service@),
    {
        match self.state {
            CircuitState::Open { until_ms } => {
                if now_ms >= until_ms {
                    self.state = CircuitState::HalfOpen;
                    Ok(())
                } else {
                    Err(Error::CircuitBreakerOpen { service: service.to_owned() })
                }
            },
            _ => Ok(()),
        }
    }

    /// Records a successful request.
    pub fn record_success(&mut self)
        ensures
            *final(self) == succeeded(*old(self)),
    {
        self.failures = 0;
        self.state = CircuitState::Closed;
    }

    /// Records a failed request at `now_ms`.
    pub fn record_failure(&mut self, now_ms: u64)
        requires
            old(self).failures < u32::MAX,
            now_ms + OPEN_INTERVAL_MS <= u64::MAX,
        ensures
            *final(self) == failed(*old(self), now_ms as int),
    {
        let n = self.failures + 1;
        self.failures = n;
        if n >= FAILURE_THRESHOLD {
            self.state = CircuitState::Open { until_ms: now_ms + OPEN_INTERVAL_MS };
        }
    }
}

/// The breaker after failures at the instants of `times`, in order.
pub open spec fn failed_at_each(b: CircuitBreaker, times: Seq<int>) -> CircuitBreaker
    decreases times.len(),
{
    if times.len() == 0 {
        b
    } else {
        failed(failed_at_each(b, times.drop_last()), times.last())
    }
}

/// From a fresh or just-succeeded breaker, a run of consecutive failures
/// leaves it closed while fewer than the threshold, and open for the open
/// interval after the last failure from the threshold on.
pub proof fn lemma_consecutive_failures(b: CircuitBreaker, times: Seq<int>)
    requires
        b.failures == 0,
        b.state == CircuitState::Closed,
        forall|i: int| 0 <= i < times.len() ==> 0 <= #[trigger] times[i] && times[i] + OPEN_INTERVAL_MS <= u64::MAX,
        times.len() < u32::MAX,
    ensures
        failed_at_each(b, times).failures == times.len(),
        times.len() < FAILURE_THRESHOLD ==> failed_at_each(b, times).state == CircuitState::Closed,
        times.len() >= FAILURE_THRESHOLD ==> failed_at_each(b, times).state == (CircuitState::Open {
            until_ms: (times.last() + OPEN_INTERVAL_MS) as u64,
        }),
    decreases times.len(),
{
    if times.len() > 0 {
        lemma_consecutive_failures(b, times.drop_last());
    }
}

/// From a fresh breaker, once the threshold of consecutive failures has
/// been recorded, every check before the open interval after the last
/// failure has passed refuses the request and leaves the breaker as it is;
/// `check` then answers `Error::CircuitBreakerOpen` naming the service.
pub proof fn lemma_refused_after_failures(b: CircuitBreaker, times: Seq<int>, now_ms: int)
    requires
        b.failures == 0,
        b.state == CircuitState::Closed,
        forall|i: int| 0 <= i < times.len() ==> 0 <= #[trigger] times[i] && times[i] + OPEN_INTERVAL_MS <= u64::MAX,
        FAILURE_THRESHOLD <= times.len() < u32::MAX,
        now_ms < times.last() + OPEN_INTERVAL_MS,
    ensures
        checked(failed_at_each(b, times), now_ms) == (failed_at_each(b, times), false),
{
    lemma_consecutive_failures(b, times);
}

/// An open breaker refuses every request before its interval ends and
/// stays as it is; from the end of the interval on it lets one through and
/// turns half-open. A success closes any breaker and lets the next request go.
pub proof fn lemma_breaker_gates(b: CircuitBreaker, now_ms: int, later_ms: int)
    ensures
        (b.state matches CircuitState::Open { until_ms } && now_ms < until_ms) ==> checked(b, now_ms)
            == (b, false),
        (b.state matches CircuitState::Open { until_ms } && now_ms >= until_ms) ==> checked(
            b,
            now_ms,
        ).1 && checked(b, now_ms).0.state == CircuitState::HalfOpen,
        checked(succeeded(b), later_ms).1,
        !(b.state is Open) ==> checked(b, now_ms) == (b, true),
{
}

/// The run of a request's attempts from attempt `k` on, given the outcome
/// of every attempt in order: how many attempts are made in all, and what
/// the request returns. Each attempt is judged as `judge_attempt` does.
pub open spec fn run_from(c: RetryConfig, outcomes: Seq<Result<Vec<u8>>>, k: nat) -> (nat, Result<Vec<u8>>)
    decreases outcomes.len() - k,
{
    if k >= outcomes.len() {
        (k, Err(Error::Cancelled))
    } else {
        match outcomes[k as int] {
            Ok(b) => (k + 1, Ok(b)),
            Err(e) => if retryable(e, k as u32, c) && k < c.max_retries {
                run_from(c, outcomes, k + 1)
            } else {
                (k + 1, Err(e))
            },
        }
    }
}

/// Whether attempt `i` of a run failed in a way that is retried.
pub open spec fn retried_at(c: RetryConfig, outcomes: Seq<Result<Vec<u8>>>, i: int) -> bool {
    match outcomes[i] {
        Ok(_) => false,
        Err(e) => retryable(e, i as u32, c) && i < c.max_retries,
    }
}

proof fn lemma_run_from(c: RetryConfig, outcomes: Seq<Result<Vec<u8>>>, k: nat)
    requires
        k <= c.max_retries,
        outcomes.len() > c.max_retries,
    ensures
        k + 1 <= run_from(c, outcomes, k).0 <= c.max_retries + 1,
        run_from(c, outcomes, k).1 == outcomes[run_from(c, outcomes, k).0 - 1],
        !retried_at(c, outcomes, run_from(c, outcomes, k).0 - 1),
        forall|i: int| k <= i < run_from(c, outcomes, k).0 - 1 ==> #[trigger] retried_at(c, outcomes, i),
    decreases c.max_retries - k,
{
    match outcomes[k as int] {
        Ok(_) => {},
        Err(e) => {
            if retryable(e, k as u32, c) && k < c.max_retries {
                lemma_run_from(c, outcomes, k + 1);
                assert(retried_at(c, outcomes, k as int));
            }
        },
    }
}

/// The retry loop of a request, given the outcome of each attempt: it makes
/// at least one and at most `max_retries + 1` attempts; every attempt but
/// the last failed in a way that is retried (rate limiting and server
/// errors within their budgets, connection failures) while attempts
/// remained; the last one is not retried, and the request returns its
/// outcome: `Ok(b)` exactly when the last attempt got body `b`. In
/// particular, an error that is not retried (such as a 404) is returned
/// after the first attempt.
pub proof fn lemma_retry_run(c: RetryConfig, outcomes: Seq<Result<Vec<u8>>>)
    requires
        outcomes.len() > c.max_retries,
    ensures
        1 <= run_from(c, outcomes, 0).0 <= c.max_retries + 1,
        run_from(c, outcomes, 0).1 == outcomes[run_from(c, outcomes, 0).0 - 1],
        !retried_at(c, outcomes, run_from(c, outcomes, 0).0 - 1),
        forall|i: int| 0 <= i < run_from(c, outcomes, 0).0 - 1 ==> #[trigger] retried_at(c, outcomes, i),
        !retried_at(c, outcomes, 0) ==> run_from(c, outcomes, 0) == (1nat, outcomes[0]),
{
    lemma_run_from(c, outcomes, 0);
}

/// The default port for a URI scheme: 443 for https (the default scheme),
/// 80 for anything else, unless the URI names a port.
pub fn effective_port(scheme: Option<&str>, port: Option<u16>) -> (r: u16)
    ensures
        match port {
            Some(p) => r == p,
            None => r == (if scheme.is_none() || scheme.unwrap()@ == "https"@ { 443u16 } else { 80u16 }),
        },
{
    match port {
        Some(p) => p,
        None => {
            let https = match scheme {
                Some(s) => str_eq(s, "https"),
                None => true,
            };
            if https {
                443
            } else {
                80
            }
        },
    }
}

/// The value a server asked to wait before retrying, in seconds: read from
/// `Retry-After` for a 429 only, when it is a plain integer.
pub uninterp spec fn parsed_u64(s: Seq<char>) -> Option<u64>;

/// Parses a decimal `u64`.
///
/// Calls `str::parse::<u64>` (std) and keeps the value on success; the
/// outcome is named `parsed_u64(s)`, a function of the text alone.
#[verifier::external_body]
fn parse_u64(s: &str) -> (r: Option<u64>)
    ensures
        r == parsed_u64(s@),
{
    s.parse::<u64>().ok()
}

/// The retry delay a response announces: for status 429, the `Retry-After`
/// header read as a whole number of seconds; for any other status, none.
pub fn retry_after_secs(status: u16, header: Option<&str>) -> (r: Option<u64>)
    ensures
        status != 429 ==> r.is_none(),
        status == 429 ==> r == match header {
            Some(h) => parsed_u64(h@),
            None => None,
        },
{
    if status == 429 {
        match header {
            Some(h) => parse_u64(h),
            None => None,
        }
    } else {
        None
    }
}

/// One `name=value` pair of a form body, both form-urlencoded.
pub open spec fn form_pair(kv: (Seq<char>, Seq<char>)) -> Seq<char> {
    form_encode(encode_utf8(kv.0)) + "="@ + form_encode(encode_utf8(kv.1))
}

/// An `application/x-www-form-urlencoded` body: the encoded pairs joined by `&`.
pub open spec fn form_body_of(params: Seq<(Seq<char>, Seq<char>)>) -> Seq<char> {
    seq_join(params.map_values(|kv: (Seq<char>, Seq<char>)| form_pair(kv)), "&"@)
}

/// Serialises form parameters as `application/x-www-form-urlencoded`.
///
/// Calls `url::form_urlencoded::Serializer::new(String::new())`,
/// `extend_pairs` and `finish`; the contract states the serializer's rule:
/// each name and value byte-encoded as `byte_serialize` does, `=` between
/// them, `&` between pairs.
#[verifier::external_body]
fn serialize_form(params: &[(String, String)]) -> (r: String)
    ensures
        r@ == form_body_of(pair_views(params@)),
{
    url::form_urlencoded::Serializer::new(String::new()).extend_pairs(params).finish()
}

/// The body of a form POST (an OAuth2 token request): the parameters,
/// form-urlencoded, in order (see `form_body_of`).
pub fn form_body(params: &[(String, String)]) -> (r: String)
    ensures
        r@ == form_body_of(pair_views(params@)),
{
    serialize_form(params)
}

/// The `User-Agent` the client sends for a given crate version.
pub fn user_agent(version: &str) -> (r: String)
    ensures
        r@ == "rusty-cog/"@ + version@,
{
    let mut s = String::from_str("rusty-cog/");
    s.append(version);
    s
}

/// The `Authorization` header value for a bearer token.
pub fn bearer_header(token: &str) -> (r: String)
    ensures
        r@ == "Bearer "@ + token@,
{
    let mut s = String::from_str("Bearer ");
    s.append(token);
    s
}

/// The headers of a request, in order: `Host`, `User-Agent`, `Accept:
/// application/json`, then `Authorization: Bearer <token>` when a token is
/// given, then `Content-Type` when the request has a body.
pub open spec fn request_headers_of(
    host: Seq<char>,
    user_agent: Seq<char>,
    bearer_token: Option<Seq<char>>,
    has_body: bool,
    content_type: Seq<char>,
) -> Seq<(Seq<char>, Seq<char>)> {
    seq![("Host"@, host), ("User-Agent"@, user_agent), ("Accept"@, "application/json"@)] + match bearer_token {
        Some(t) => seq![("Authorization"@, "Bearer "@ + t)],
        None => Seq::empty(),
    } + if has_body {
        seq![("Content-Type"@, content_type)]
    } else {
        Seq::empty()
    }
}

/// The headers of a request (see `request_headers_of`).
pub fn request_headers(
    host: &str,
    user_agent: &str,
    bearer_token: Option<&str>,
    has_body: bool,
    content_type: &str,
) -> (r: Vec<(String, String)>)
    ensures
        pair_views(r@) == request_headers_of(
            host@,
            user_agent@,
            match bearer_token {
                Some(t) => Some(t@),
                None => None,
            },
            has_body,
            content_type@,
        ),
{
    let mut h: Vec<(String, String)> = Vec::new();
    h.push((String::from_str("Host"), host.to_owned()));
    h.push((String::from_str("User-Agent"), user_agent.to_owned()));
    h.push((String::from_str("Accept"), String::from_str("application/json")));
    match bearer_token {
        Some(t) => h.push((String::from_str("Authorization"), bearer_header(t))),
        None => {},
    }
    if has_body {
        h.push((String::from_str("Content-Type"), content_type.to_owned()));
    }
    let ghost bt = match bearer_token {
        Some(t) => Some(t@),
        None => None::<Seq<char>>,
    };
    assert(pair_views(h@) =~= request_headers_of(host@, user_agent@, bt, has_body, content_type@));
    h
}

} // verus!
