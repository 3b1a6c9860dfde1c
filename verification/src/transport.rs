//! The decisions of the GraphQL transport: where requests go, what they
//! carry, how a response is read, how a failure is classified, and when a
//! failed request is tried again. Sending the bytes is left to the caller.

use crate::errors::{HivehookError, HttpFailure};
use crate::json::{Json, parse_json, parsed_json, get, as_str, first, get_opt, str_opt, first_opt};
use crate::text::{chars_of, push_range, trim_bounds, parse_u64_chars, parse_u64, trim};
use vstd::prelude::*;

verus! {

broadcast use vstd::string::group_string_axioms;

/// Default maximum number of retry attempts after the initial request.
pub const DEFAULT_MAX_RETRIES: u32 = 2;

/// `s` without its trailing `/` characters (`trim_end_matches('/')`).
pub open spec fn trim_trailing_slashes(s: Seq<char>) -> Seq<char>
    decreases s.len(),
{
    if s.len() > 0 && s.last() == '/' {
        trim_trailing_slashes(s.drop_last())
    } else {
        s
    }
}

/// The GraphQL endpoint of a server at `base`.
pub open spec fn endpoint_url(base: Seq<char>) -> Seq<char> {
    trim_trailing_slashes(base) + "/graphql"@
}

/// The GraphQL endpoint of a server at `base_url`: trailing slashes dropped,
/// `/graphql` appended.
pub fn graphql_url(base_url: &str) -> (url: String)
    ensures
        url@ == endpoint_url(base_url@),
{
    let v = chars_of(base_url);
    let mut end = v.len();
    assert(v@.subrange(0, end as int) == v@);
    while end > 0 && v[end - 1] == '/'
        invariant
            end <= v@.len(),
            trim_trailing_slashes(v@.subrange(0, end as int)) == trim_trailing_slashes(v@),
        decreases end,
    {
        assert(v@.subrange(0, end - 1) == v@.subrange(0, end as int).drop_last());
        end = end - 1;
    }
    let mut url = String::new();
    push_range(&mut url, &v, 0, end);
    url.append("/graphql");
    url
}

/// The optional text behind an optional string slice.
pub open spec fn opt_text(s: Option<&str>) -> Option<Seq<char>> {
    match s {
        Some(t) => Some(t@),
        None => None,
    }
}

/// The message of the first GraphQL error of a document, when it has one.
pub open spec fn first_error_message(doc: Json) -> Option<Seq<char>> {
    str_opt(get_opt(first_opt(get(doc, "errors"@)), "message"@))
}

/// The message a document carries: that of its first GraphQL error, else its
/// top-level `message`, else the whole body.
pub open spec fn message_in(doc: Json, body: Seq<char>) -> Seq<char> {
    match first_error_message(doc) {
        Some(m) => m,
        None => match str_opt(get(doc, "message"@)) {
            Some(m) => m,
            None => body,
        },
    }
}

/// The message reported for an error response whose body is `body`.
pub open spec fn body_message(body: Seq<char>) -> Seq<char> {
    match parsed_json(body) {
        Some(doc) => message_in(doc, body),
        None => body,
    }
}

/// The message of an error response: the first GraphQL error's message, the
/// top-level `message`, or else the body itself.
pub fn extract_message_from_body(body: &str) -> (m: String)
    ensures
        m@ == body_message(body@),
{
    match parse_json(body) {
        Ok(doc) => {
            let from_errors = match doc.get("errors") {
                Some(errors) => match errors.first() {
                    Some(e) => match e.get("message") {
                        Some(m) => m.as_str(),
                        None => None,
                    },
                    None => None,
                },
                None => None,
            };
            match from_errors {
                Some(m) => m.clone(),
                None => match doc.get("message") {
                    Some(m) => match m.as_str() {
                        Some(t) => t.clone(),
                        None => String::from_str(body),
                    },
                    None => String::from_str(body),
                },
            }
        },
        Err(_) => String::from_str(body),
    }
}

/// The delay in seconds that a `Retry-After` header asks for: its trimmed
/// text read as delta-seconds. The HTTP-date form is not read.
pub open spec fn retry_after_secs(header: Option<Seq<char>>) -> Option<u64> {
    match header {
        Some(h) => parse_u64(trim(h)),
        None => None,
    }
}

/// Reads a `Retry-After` header as a number of seconds.
pub fn parse_retry_after(header: Option<&str>) -> (r: Option<u64>)
    ensures
        r == retry_after_secs(opt_text(header)),
{
    match header {
        Some(h) => {
            let v = chars_of(h);
            assert(v@.subrange(0, v@.len() as int) == v@);
            let (lo, hi) = trim_bounds(&v, 0, v.len());
            parse_u64_chars(&v, lo, hi)
        },
        None => None,
    }
}

/// The error for an HTTP response with status `status` (400 or above),
/// `Retry-After` header `retry_after` and body `body`.
pub open spec fn http_error_matches(
    status: u16,
    retry_after: Option<Seq<char>>,
    body: Seq<char>,
    e: HivehookError,
) -> bool {
    let message = body_message(body);
    if status == 401 {
        e matches HivehookError::Auth(m) && m@ == (if message.len() == 0 {
            "unauthorized"@
        } else {
            message
        })
    } else if status == 429 {
        e matches HivehookError::RateLimit { retry_after: ra, message: m } && ra
            == retry_after_secs(retry_after) && m@ == message
    } else if 500 <= status <= 599 {
        e matches HivehookError::ServerError { status: s, message: m } && s == status && m@
            == message
    } else {
        e matches HivehookError::Api { message: m, status_code: c } && c == Some(status) && m@
            == message
    }
}

/// Classifies an HTTP error response.
pub fn classify_http_error(status: u16, retry_after: Option<&str>, body: &str) -> (e:
    HivehookError)
    ensures
        http_error_matches(status, opt_text(retry_after), body@, e),
        500 <= status <= 599 ==> (e matches HivehookError::ServerError { status: s, .. } && s
            == status),
        retryable(e) <==> (status == 429 || 500 <= status <= 599),
{
    let message = extract_message_from_body(body);
    if status == 401 {
        if message.as_str().is_empty() {
            HivehookError::Auth(String::from_str("unauthorized"))
        } else {
            HivehookError::Auth(message)
        }
    } else if status == 429 {
        HivehookError::RateLimit { retry_after: parse_retry_after(retry_after), message }
    } else if 500 <= status && status <= 599 {
        HivehookError::ServerError { status, message }
    } else {
        HivehookError::Api { message, status_code: Some(status) }
    }
}

/// The error for the GraphQL error object `err`: its `message` (or
/// `"unknown error"`), and a variant chosen by `extensions.code`.
pub open spec fn graphql_error_matches(err: Json, e: HivehookError) -> bool {
    let message = match str_opt(get(err, "message"@)) {
        Some(m) => m,
        None => "unknown error"@,
    };
    let extensions = get(err, "extensions"@);
    let code = str_opt(get_opt(extensions, "code"@));
    if code == Some("NOT_FOUND"@) {
        e matches HivehookError::NotFound { message: m, extensions: x } && m@ == message && x
            == extensions
    } else if code == Some("CONFLICT"@) {
        e matches HivehookError::Conflict { message: m, extensions: x } && m@ == message && x
            == extensions
    } else if code == Some("VALIDATION"@) {
        e matches HivehookError::Validation { message: m, extensions: x } && m@ == message && x
            == extensions
    } else {
        e matches HivehookError::Api { message: m, status_code: c } && m@ == message && c is None
    }
}

fn string_is(s: &String, literal: &str) -> (b: bool)
    ensures
        b == (s@ == literal@),
{
    *s == String::from_str(literal)
}

/// Turns a GraphQL error object into an error.
pub fn graphql_error(err: Json) -> (e: HivehookError)
    ensures
        graphql_error_matches(err, e),
{
    let message = match err.get("message") {
        Some(m) => match m.as_str() {
            Some(t) => t.clone(),
            None => String::from_str("unknown error"),
        },
        None => String::from_str("unknown error"),
    };
    let code: Option<&String> = match err.get("extensions") {
        Some(x) => match x.get("code") {
            Some(c) => c.as_str(),
            None => None,
        },
        None => None,
    };
    let kind: u8 = match code {
        Some(c) => if string_is(c, "NOT_FOUND") {
            1
        } else if string_is(c, "CONFLICT") {
            2
        } else if string_is(c, "VALIDATION") {
            3
        } else {
            0
        },
        None => 0,
    };
    let extensions = err.take("extensions");
    if kind == 1 {
        HivehookError::NotFound { message, extensions }
    } else if kind == 2 {
        HivehookError::Conflict { message, extensions }
    } else if kind == 3 {
        HivehookError::Validation { message, extensions }
    } else {
        HivehookError::Api { message, status_code: None }
    }
}

/// What reading a successful response body gives: a parse failure, the
/// first GraphQL error, or the `data` object.
pub open spec fn data_outcome_matches(
    body: Seq<char>,
    r: Result<Vec<(String, Json)>, HivehookError>,
) -> bool {
    match parsed_json(body) {
        None => r matches Err(HivehookError::Json(_)),
        Some(doc) => match first_opt(get(doc, "errors"@)) {
            Some(err) => r matches Err(e) && graphql_error_matches(err, e),
            None => match get(doc, "data"@) {
                Some(Json::Object(m)) => r == Ok::<Vec<(String, Json)>, HivehookError>(m),
                _ => r matches Err(HivehookError::Api { message: m, status_code: c }) && m@
                    == "empty response data"@ && c == Some(500u16),
            },
        },
    }
}

/// Reads the `data` object out of a GraphQL response body, surfacing the
/// first GraphQL error as an error.
pub fn decode_data(response_body: &str) -> (r: Result<Vec<(String, Json)>, HivehookError>)
    ensures
        data_outcome_matches(response_body@, r),
{
    let doc = match parse_json(response_body) {
        Ok(d) => d,
        Err(e) => {
            return Err(HivehookError::Json(e));
        },
    };
    let has_error = match doc.get("errors") {
        Some(errors) => errors.first().is_some(),
        None => false,
    };
    if has_error {
        match doc.take("errors") {
            Some(errors) => match errors.take_first() {
                Some(err) => Err(graphql_error(err)),
                None => Err(missing_data()),
            },
            None => Err(missing_data()),
        }
    } else {
        match doc.take("data") {
            Some(Json::Object(m)) => Ok(m),
            _ => Err(missing_data()),
        }
    }
}

fn missing_data() -> (e: HivehookError)
    ensures
        e matches HivehookError::Api { message: m, status_code: c } && m@ == "empty response data"@
            && c == Some(500u16),
{
    HivehookError::Api { message: String::from_str("empty response data"), status_code: Some(500) }
}

/// What a response with status `status` gives: the classified error from 400
/// on, else what its body reads as.
pub open spec fn response_outcome_matches(
    status: u16,
    retry_after: Option<Seq<char>>,
    body: Seq<char>,
    r: Result<Vec<(String, Json)>, HivehookError>,
) -> bool {
    if status >= 400 {
        r matches Err(e) && http_error_matches(status, retry_after, body, e)
    } else {
        data_outcome_matches(body, r)
    }
}

/// Reads one HTTP response of the GraphQL endpoint.
pub fn read_response(status: u16, retry_after: Option<&str>, response_body: &str) -> (r: Result<
    Vec<(String, Json)>,
    HivehookError,
>)
    ensures
        response_outcome_matches(status, opt_text(retry_after), response_body@, r),
{
    if status >= 400 {
        Err(classify_http_error(status, retry_after, response_body))
    } else {
        decode_data(response_body)
    }
}

/// The request body: `{"query": query}`, with `"variables"` when given.
pub open spec fn request_body_matches(
    query: Seq<char>,
    variables: Option<Vec<(String, Json)>>,
    b: Json,
) -> bool {
    b matches Json::Object(m) && m@.len() >= 1 && m@[0].0@ == "query"@ && as_str(m@[0].1) == Some(
        query,
    ) && match variables {
        Some(vars) => m@.len() == 2 && m@[1].0@ == "variables"@ && m@[1].1 == Json::Object(vars),
        None => m@.len() == 1,
    }
}

/// Builds the JSON body of a GraphQL request.
pub fn build_body(query: &str, variables: Option<Vec<(String, Json)>>) -> (b: Json)
    ensures
        request_body_matches(query@, variables, b),
{
    let mut members: Vec<(String, Json)> = Vec::new();
    members.push((String::from_str("query"), Json::Str(String::from_str(query))));
    match variables {
        Some(vars) => {
            members.push((String::from_str("variables"), Json::Object(vars)));
        },
        None => {},
    }
    Json::Object(members)
}

/// The `Authorization` header value for `api_key`.
pub fn bearer(api_key: &str) -> (h: String)
    ensures
        h@ == "Bearer "@ + api_key@,
{
    let mut h = String::from_str("Bearer ");
    h.append(api_key);
    h
}

/// Whether a retry might recover from `e`.
pub open spec fn retryable(e: HivehookError) -> bool {
    match e {
        HivehookError::RateLimit { .. } => true,
        HivehookError::ServerError { .. } => true,
        HivehookError::Http(f) => f.is_timeout || f.is_connect || f.is_request,
        _ => false,
    }
}

/// Returns `true` if the error is something a retry might recover from.
pub fn is_retryable(err: &HivehookError) -> (b: bool)
    ensures
        b == retryable(*err),
{
    match err {
        HivehookError::RateLimit { .. } => true,
        HivehookError::ServerError { .. } => true,
        HivehookError::Http(f) => f.is_timeout || f.is_connect || f.is_request,
        _ => false,
    }
}

/// How long to wait before trying again.
#[derive(Debug, Clone, Copy, PartialEq, Eq, Structural)]
pub enum RetryDelay {
    /// A whole number of seconds, as the server asked.
    Seconds(u64),
    /// A number of milliseconds.
    Milliseconds(u64),
}

/// Exponential backoff: 100 ms doubled once per attempt, for at most six
/// doublings.
pub open spec fn backoff_millis(attempt: u32) -> u64 {
    if attempt < 6 {
        (100 * (1u64 << attempt)) as u64
    } else {
        6400
    }
}

/// The wait before the next attempt after `e` failed attempt number
/// `attempt`: the server's `Retry-After`, else exponential backoff.
pub open spec fn delay_after(e: HivehookError, attempt: u32) -> RetryDelay {
    match e {
        HivehookError::RateLimit { retry_after: Some(secs), .. } => RetryDelay::Seconds(secs),
        _ => RetryDelay::Milliseconds(backoff_millis(attempt)),
    }
}

/// Returns the recommended wait before the next retry attempt.
pub fn retry_delay(err: &HivehookError, attempt: u32) -> (d: RetryDelay)
    ensures
        d == delay_after(*err, attempt),
{
    match err {
        HivehookError::RateLimit { retry_after: Some(secs), .. } => RetryDelay::Seconds(*secs),
        _ => {
            if attempt < 6 {
                assert(attempt < 6 ==> (1u64 << attempt) <= 32) by (bit_vector);
                RetryDelay::Milliseconds(100 * (1u64 << attempt))
            } else {
                RetryDelay::Milliseconds(6400)
            }
        },
    }
}

/// What to do once an attempt has ended.
#[derive(Debug)]
pub enum RetryStep {
    /// Stop and hand this result to the caller.
    Finish(Result<Vec<(String, Json)>, HivehookError>),
    /// Wait, then send the request again.
    Retry(RetryDelay),
}

/// The bounded retry policy of one request: how many attempts have been
/// retried so far, out of how many allowed.
#[derive(Debug, Clone, Copy)]
pub struct RetryState {
    /// Retries made so far.
    pub attempt: u32,
    /// Retries allowed after the first attempt.
    pub max_retries: u32,
}

/// The decision after an attempt that ended with `outcome`, taken by the
/// policy `s`: the step to take and the policy afterwards. It depends on
/// nothing else, so two transports that see the same outcomes send the
/// same requests, wait the same delays and end with the same result.
pub open spec fn next_retry(
    s: RetryState,
    outcome: Result<Vec<(String, Json)>, HivehookError>,
) -> (RetryState, RetryStep) {
    match outcome {
        Ok(_) => (s, RetryStep::Finish(outcome)),
        Err(e) => if s.attempt < s.max_retries && retryable(e) {
            (
                RetryState { attempt: (s.attempt + 1) as u32, max_retries: s.max_retries },
                RetryStep::Retry(delay_after(e, s.attempt)),
            )
        } else {
            (s, RetryStep::Finish(outcome))
        },
    }
}

impl RetryState {
    /// Retries never outrun the allowance.
    pub open spec fn wf(self) -> bool {
        self.attempt <= self.max_retries
    }

    /// The policy before the first attempt.
    pub fn new(max_retries: u32) -> (s: RetryState)
        ensures
            s.attempt == 0,
            s.max_retries == max_retries,
            s.wf(),
    {
        RetryState { attempt: 0, max_retries }
    }

    /// Decides what follows an attempt that ended with `outcome`: a success,
    /// or an error that is not retryable or comes after the last allowed
    /// retry, is handed back; any other error is retried after
    /// [`delay_after`].
    pub fn after_attempt(&mut self, outcome: Result<Vec<(String, Json)>, HivehookError>) -> (step:
        RetryStep)
        requires
            old(self).wf(),
        ensures
            final(self).wf(),
            final(self).max_retries == old(self).max_retries,
            match outcome {
                Ok(_) => step == RetryStep::Finish(outcome) && *final(self) == *old(self),
                Err(e) => if old(self).attempt < old(self).max_retries && retryable(e) {
                    step == RetryStep::Retry(delay_after(e, old(self).attempt))
                        && final(self).attempt == old(self).attempt + 1
                } else {
                    step == RetryStep::Finish(outcome) && *final(self) == *old(self)
                },
            },
            (*final(self), step) == next_retry(*old(self), outcome),
    {
        match outcome {
            Ok(data) => RetryStep::Finish(Ok(data)),
            Err(err) => {
                if self.attempt < self.max_retries && is_retryable(&err) {
                    let delay = retry_delay(&err, self.attempt);
                    self.attempt = self.attempt + 1;
                    RetryStep::Retry(delay)
                } else {
                    RetryStep::Finish(Err(err))
                }
            },
        }
    }
}

/// Retries are bounded: along a run of retry policies where each comes from
/// the one before by a retry (the counter up by one, the allowance kept),
/// every one of them within its allowance, there are at most
/// `max_retries - attempt` retries, so a request is sent at most
/// `max_retries + 1` times.
pub proof fn lemma_retries_bounded(states: Seq<RetryState>)
    requires
        states.len() >= 1,
        forall|i: int| 0 <= i < states.len() ==> #[trigger] states[i].wf(),
        forall|i: int|
            0 < i < states.len() ==> #[trigger] states[i].attempt == states[i - 1].attempt + 1,
        forall|i: int|
            0 < i < states.len() ==> #[trigger] states[i].max_retries == states[i - 1].max_retries,
    ensures
        states.len() <= states[0].max_retries - states[0].attempt + 1,
    decreases states.len(),
{
    assert(states[0].wf());
    if states.len() > 1 {
        assert(states[1].attempt == states[0].attempt + 1);
        assert(states[1].max_retries == states[0].max_retries);
        let rest = states.drop_first();
        assert forall|i: int| 0 < i < rest.len() implies #[trigger] rest[i].attempt == rest[i
            - 1].attempt + 1 by {
            assert(rest[i] == states[i + 1]);
            assert(rest[i - 1] == states[i]);
        }
        assert forall|i: int| 0 < i < rest.len() implies #[trigger] rest[i].max_retries == rest[i
            - 1].max_retries by {
            assert(rest[i] == states[i + 1]);
            assert(rest[i - 1] == states[i]);
        }
        assert forall|i: int| 0 <= i < rest.len() implies #[trigger] rest[i].wf() by {
            assert(rest[i] == states[i + 1]);
        }
        lemma_retries_bounded(rest);
        assert(rest[0] == states[1]);
    }
}

/// The backoff schedule: 100 ms after the first failure, doubled after each
/// further one up to 6400 ms, and 6400 ms from then on.
pub proof fn lemma_backoff_schedule(attempt: u32)
    ensures
        100 <= backoff_millis(attempt) <= 6400,
        attempt == 0 ==> backoff_millis(attempt) == 100,
        attempt < 6 ==> backoff_millis((attempt + 1) as u32) == 2 * backoff_millis(attempt),
        attempt >= 6 ==> backoff_millis(attempt) == 6400,
{
    assert((1u64 << 0u32) == 1u64) by (bit_vector);
    assert((1u64 << 1u32) == 2u64) by (bit_vector);
    assert((1u64 << 2u32) == 4u64) by (bit_vector);
    assert((1u64 << 3u32) == 8u64) by (bit_vector);
    assert((1u64 << 4u32) == 16u64) by (bit_vector);
    assert((1u64 << 5u32) == 32u64) by (bit_vector);
}

/// What a request that meets the outcomes `outcomes` in turn comes to, under
/// the policy `s`: how many times it is sent and the result handed back, or
/// `None` when the outcomes run out while retries are still being asked for.
/// Each decision is [`next_retry`], so every transport that follows the
/// policy, blocking or async, comes to this same run.
pub open spec fn retry_run(
    s: RetryState,
    outcomes: Seq<Result<Vec<(String, Json)>, HivehookError>>,
) -> Option<(nat, Result<Vec<(String, Json)>, HivehookError>)>
    decreases outcomes.len(),
{
    if outcomes.len() == 0 {
        None
    } else {
        match next_retry(s, outcomes[0]) {
            (_, RetryStep::Finish(r)) => Some((1nat, r)),
            (next, RetryStep::Retry(_)) => match retry_run(next, outcomes.drop_first()) {
                Some((n, r)) => Some((n + 1, r)),
                None => None,
            },
        }
    }
}

/// A run ends within the allowance: with at least `max_retries - attempt + 1`
/// outcomes to meet, the request is sent at most that many times and ends
/// with one of the outcomes it met.
pub proof fn lemma_retry_run_ends(
    s: RetryState,
    outcomes: Seq<Result<Vec<(String, Json)>, HivehookError>>,
)
    requires
        s.wf(),
        outcomes.len() >= s.max_retries - s.attempt + 1,
    ensures
        retry_run(s, outcomes) matches Some((n, r)) && 1 <= n <= s.max_retries - s.attempt + 1
            && r == outcomes[n - 1],
    decreases outcomes.len(),
{
    match next_retry(s, outcomes[0]) {
        (_, RetryStep::Finish(r)) => {},
        (next, RetryStep::Retry(_)) => {
            lemma_retry_run_ends(next, outcomes.drop_first());
            let (n, r) = retry_run(next, outcomes.drop_first()).unwrap();
            assert(outcomes.drop_first()[n - 1] == outcomes[n as int]);
        },
    }
}

/// How an HTTP error response is classified: 401 is an authentication
/// error, 429 a rate limit carrying the `Retry-After` seconds, every status
/// from 500 to 599 a server error carrying that status, and any other
/// status a generic API error carrying it. Exactly the rate limits and the
/// server errors are worth retrying.
pub proof fn lemma_http_error_classes(
    status: u16,
    retry_after: Option<Seq<char>>,
    body: Seq<char>,
    e: HivehookError,
)
    requires
        status >= 400,
        http_error_matches(status, retry_after, body, e),
    ensures
        status == 401 ==> e is Auth,
        status == 429 ==> (e matches HivehookError::RateLimit { retry_after: ra, .. } && ra
            == retry_after_secs(retry_after)),
        500 <= status <= 599 ==> (e matches HivehookError::ServerError { status: s, .. } && s
            == status),
        (status != 401 && status != 429 && !(500 <= status <= 599)) ==> (
        e matches HivehookError::Api { status_code: c, .. } && c == Some(status)),
        retryable(e) <==> (status == 429 || 500 <= status <= 599),
{
}

/// A response with a status from 500 to 599 is tried again while retries
/// remain, after the backoff for the attempt, and handed back as a server
/// error carrying its status once they are spent.
pub proof fn lemma_server_errors_retried(
    status: u16,
    retry_after: Option<Seq<char>>,
    body: Seq<char>,
    outcome: Result<Vec<(String, Json)>, HivehookError>,
    s: RetryState,
)
    requires
        500 <= status <= 599,
        response_outcome_matches(status, retry_after, body, outcome),
        s.wf(),
    ensures
        outcome matches Err(HivehookError::ServerError { status: st, .. }) && st == status,
        s.attempt < s.max_retries ==> next_retry(s, outcome).1 == RetryStep::Retry(
            RetryDelay::Milliseconds(backoff_millis(s.attempt)),
        ),
        s.attempt == s.max_retries ==> next_retry(s, outcome).1 == RetryStep::Finish(outcome),
{
}

/// A rate-limited response (429) is tried again while retries remain,
/// after the `Retry-After` seconds when the header gives them and after the
/// backoff otherwise.
pub proof fn lemma_rate_limits_retried(
    retry_after: Option<Seq<char>>,
    body: Seq<char>,
    outcome: Result<Vec<(String, Json)>, HivehookError>,
    s: RetryState,
)
    requires
        response_outcome_matches(429, retry_after, body, outcome),
        s.wf(),
        s.attempt < s.max_retries,
    ensures
        next_retry(s, outcome).1 == RetryStep::Retry(
            match retry_after_secs(retry_after) {
                Some(secs) => RetryDelay::Seconds(secs),
                None => RetryDelay::Milliseconds(backoff_millis(s.attempt)),
            },
        ),
{
}

} // verus!
