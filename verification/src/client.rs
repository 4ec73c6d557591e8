//! The client: its configuration, the requests it sends, and the rules by
//! which a call is tried again and its response judged.
//!
//! The client does not own a transport.  It prepares each request as plain
//! data, and it decides, from the outcome of every attempt, whether the call
//! is over or which delay comes before the next attempt.

use vstd::prelude::*;
use vstd::arithmetic::power2::{
    lemma2_to64, lemma2_to64_rest, lemma_pow2_strictly_increases, lemma_pow2_unfold, pow2,
};
use crate::error::{text_of, unknown_error, ApiErrorResponse, Error, ErrorView};
use crate::text::{concat, pairs_text, parse_decimal, parse_u64};

verus! {

/// Default API base URL.
pub const DEFAULT_BASE_URL: &'static str = "https://sendly.live/api/v1";

/// SDK version.
pub const VERSION: &'static str = "0.9.5";

/// The largest number of retries for which every backoff delay fits 64 bits.
pub const MAX_RETRY_LIMIT: u32 = 64;

/// Configuration for the client.
#[derive(Debug, Clone)]
pub struct SendlyConfig {
    /// API base URL.
    pub base_url: String,
    /// Time allowed for each attempt, in milliseconds.
    pub timeout_ms: u64,
    /// Maximum retry attempts.
    pub max_retries: u32,
}

impl Default for SendlyConfig {
    fn default() -> (config: Self)
        ensures
            config.base_url@ == DEFAULT_BASE_URL@,
            config.timeout_ms == 30_000,
            config.max_retries == 3,
    {
        SendlyConfig { base_url: DEFAULT_BASE_URL.to_string(), timeout_ms: 30_000, max_retries: 3 }
    }
}

impl SendlyConfig {
    /// Creates the default configuration.
    pub fn new() -> (config: Self)
        ensures
            config.base_url@ == DEFAULT_BASE_URL@,
            config.timeout_ms == 30_000,
            config.max_retries == 3,
    {
        SendlyConfig { base_url: DEFAULT_BASE_URL.to_string(), timeout_ms: 30_000, max_retries: 3 }
    }

    /// Sets the base URL.
    pub fn base_url(self, url: &str) -> (config: Self)
        ensures
            config.base_url@ == url@,
            config.timeout_ms == self.timeout_ms,
            config.max_retries == self.max_retries,
    {
        SendlyConfig {
            base_url: url.to_string(),
            timeout_ms: self.timeout_ms,
            max_retries: self.max_retries,
        }
    }

    /// Sets the time allowed for each attempt, in milliseconds.
    pub fn timeout(self, timeout_ms: u64) -> (config: Self)
        ensures
            config.base_url == self.base_url,
            config.timeout_ms == timeout_ms,
            config.max_retries == self.max_retries,
    {
        SendlyConfig { base_url: self.base_url, timeout_ms, max_retries: self.max_retries }
    }

    /// Sets the maximum number of retries.
    pub fn max_retries(self, retries: u32) -> (config: Self)
        ensures
            config.base_url == self.base_url,
            config.timeout_ms == self.timeout_ms,
            config.max_retries == retries,
    {
        SendlyConfig { base_url: self.base_url, timeout_ms: self.timeout_ms, max_retries: retries }
    }
}

/// HTTP method of a request.
#[derive(Debug, Clone, Copy, PartialEq, Eq, Structural)]
pub enum Method {
    Get,
    Post,
    Patch,
    Delete,
}

/// A request, ready to be handed to a transport.
#[derive(Debug)]
pub struct Request {
    pub method: Method,
    /// Base URL and path, joined.
    pub url: String,
    /// Query parameters, in the order in which they are sent.
    pub query: Vec<(String, String)>,
    /// Headers, in the order in which they are set.
    pub headers: Vec<(String, String)>,
    /// The JSON text of the body, where the request has one.
    pub body: Option<String>,
}

/// What a transport hands back for a request that the server answered.
#[derive(Debug)]
pub struct RawResponse {
    /// HTTP status code.
    pub status: u16,
    /// Text of the `Retry-After` header, where the response has one.
    pub retry_after: Option<String>,
    /// The error envelope decoded from the body, where the body holds one.
    pub error_body: Option<ApiErrorResponse>,
    /// The body as text.
    pub body: String,
}

/// Why a transport could not obtain a response.
#[derive(Debug)]
pub enum TransportError {
    /// The attempt ran out of time.
    Timeout,
    /// The connection could not be established.
    Connect { message: String },
    /// Any other failure.
    Other { message: String },
}

/// What is known while one call is being tried.
#[derive(Debug)]
pub struct RetryState {
    /// Number of the attempt that is under way, counted from zero.
    pub attempt: u32,
    /// The failure of the latest attempt, where it is one that is tried again.
    pub last_error: Option<Error>,
}

/// What follows an attempt.
#[derive(Debug)]
pub enum RetryStep {
    /// Wait for `delay_secs` seconds, then make the next attempt.
    Retry { state: RetryState, delay_secs: u64 },
    /// The call is over.
    Done(Result<RawResponse, Error>),
}

/// What a call came to, and what it took.
#[derive(Debug)]
pub struct CallReport {
    /// The result of the call.
    pub result: Result<RawResponse, Error>,
    /// Number of attempts made.
    pub attempts: u32,
    /// Seconds waited between the attempts, all delays together.
    pub slept_secs: u64,
}

/// How a call ended: with a response, or with an error seen by its contents.
pub enum Verdict {
    Success(RawResponse),
    Failure(ErrorView),
}

/// The verdict that a result stands for.
pub open spec fn verdict_of(result: Result<RawResponse, Error>) -> Verdict {
    match result {
        Ok(response) => Verdict::Success(response),
        Err(error) => Verdict::Failure(error@),
    }
}

/// Whether a status code reports success.
pub open spec fn is_success(status: u16) -> bool {
    200 <= status && status < 300
}

/// The readable text of an optional error envelope.
pub open spec fn envelope_message(envelope: Option<ApiErrorResponse>) -> Seq<char> {
    match envelope {
        Some(body) => body.spec_message(),
        None => unknown_error(),
    }
}

/// The vendor's error code of an optional error envelope.
pub open spec fn envelope_code(envelope: Option<ApiErrorResponse>) -> Option<Seq<char>> {
    match envelope {
        Some(body) => text_of(body.code),
        None => None,
    }
}

/// The seconds that a `Retry-After` header names, where it is a number.
pub open spec fn retry_after_seconds(header: Option<String>) -> Option<u64> {
    match header {
        Some(text) => parse_decimal(text@),
        None => None,
    }
}

/// The error that a response with a failure status stands for.
pub open spec fn failure_of(response: RawResponse) -> ErrorView {
    let message = envelope_message(response.error_body);
    if response.status == 401 {
        ErrorView::Authentication { message }
    } else if response.status == 402 {
        ErrorView::InsufficientCredits { message }
    } else if response.status == 404 {
        ErrorView::NotFound { message }
    } else if response.status == 429 {
        ErrorView::RateLimit { message, retry_after: retry_after_seconds(response.retry_after) }
    } else if response.status == 400 || response.status == 422 {
        ErrorView::Validation { message }
    } else {
        ErrorView::Api {
            message,
            status_code: response.status,
            code: envelope_code(response.error_body),
        }
    }
}

/// How a response is judged: handed on where the status reports success,
/// turned into an error otherwise.
pub open spec fn classify(response: RawResponse) -> Verdict {
    if is_success(response.status) {
        Verdict::Success(response)
    } else {
        Verdict::Failure(failure_of(response))
    }
}

/// Whether a transport failure is worth another attempt.
pub open spec fn transient(failure: TransportError) -> bool {
    failure is Timeout || failure is Connect
}

/// The error that a transport failure stands for.
pub open spec fn transport_failure(failure: TransportError) -> ErrorView {
    match failure {
        TransportError::Timeout => ErrorView::Timeout,
        TransportError::Connect { message } => ErrorView::Network { message: message@ },
        TransportError::Other { message } => ErrorView::Http(message@),
    }
}

/// Whether `step` is what follows attempt number `attempt` of a call that
/// allows `max_retries` retries, given the outcome of that attempt.
pub open spec fn step_matches(
    max_retries: u32,
    attempt: u32,
    outcome: Result<RawResponse, TransportError>,
    step: RetryStep,
) -> bool {
    match outcome {
        Ok(response) => match step {
            RetryStep::Done(result) => verdict_of(result) == classify(response),
            RetryStep::Retry { .. } => false,
        },
        Err(failure) => if transient(failure) && attempt < max_retries {
            match step {
                RetryStep::Retry { state, delay_secs } => {
                    &&& state.attempt == attempt + 1
                    &&& match state.last_error {
                        Some(error) => error@ == transport_failure(failure),
                        None => false,
                    }
                    &&& delay_secs == pow2(attempt as nat)
                },
                RetryStep::Done(_) => false,
            }
        } else {
            match step {
                RetryStep::Done(result) => verdict_of(result) == Verdict::Failure(
                    transport_failure(failure),
                ),
                RetryStep::Retry { .. } => false,
            }
        },
    }
}

/// The seconds waited before attempt number `attempt`, all delays together:
/// one second before the second attempt, two before the third, and so on.
pub open spec fn total_backoff(attempt: nat) -> nat
    decreases attempt,
{
    if attempt == 0 {
        0
    } else {
        total_backoff((attempt - 1) as nat) + pow2((attempt - 1) as nat)
    }
}

/// How a call went: its verdict, the number of attempts made, and the seconds
/// waited between them.
pub struct Execution {
    pub verdict: Verdict,
    pub attempts: nat,
    pub slept_secs: nat,
}

/// How a call goes from attempt number `attempt` on, where `script[i]` is the
/// outcome of attempt number `i`.
pub open spec fn execution_from(
    max_retries: nat,
    script: Seq<Result<RawResponse, TransportError>>,
    attempt: nat,
) -> Execution
    decreases max_retries - attempt,
{
    match script[attempt as int] {
        Ok(response) => Execution {
            verdict: classify(response),
            attempts: attempt + 1,
            slept_secs: total_backoff(attempt),
        },
        Err(failure) => if transient(failure) && attempt < max_retries {
            execution_from(max_retries, script, attempt + 1)
        } else {
            Execution {
                verdict: Verdict::Failure(transport_failure(failure)),
                attempts: attempt + 1,
                slept_secs: total_backoff(attempt),
            }
        },
    }
}

/// How a call goes against a transport whose attempts end as `script` says.
pub open spec fn execution(
    max_retries: nat,
    script: Seq<Result<RawResponse, TransportError>>,
) -> Execution {
    execution_from(max_retries, script, 0)
}

/// Whether an attempt ended in a timeout.
pub open spec fn timed_out(outcome: Result<RawResponse, TransportError>) -> bool {
    match outcome {
        Err(TransportError::Timeout) => true,
        _ => false,
    }
}

/// Whether an attempt ended in a failure that is tried again.
pub open spec fn failed_transiently(outcome: Result<RawResponse, TransportError>) -> bool {
    match outcome {
        Err(failure) => transient(failure),
        Ok(_) => false,
    }
}

/// Whether every entry of `script` is something that `transport` can return
/// for `request`.
pub open spec fn answered_by<T: Fn(&Request) -> Result<RawResponse, TransportError>>(
    transport: T,
    request: &Request,
    script: Seq<Result<RawResponse, TransportError>>,
) -> bool {
    forall|i: int|
        0 <= i < script.len() ==> call_ensures(transport, (request,), #[trigger] script[i])
}

/// The headers of every request.
pub open spec fn request_headers(api_key: Seq<char>, with_body: bool) -> Seq<
    (Seq<char>, Seq<char>),
> {
    let authorization = ("Authorization"@, "Bearer "@ + api_key);
    let accept = ("Accept"@, "application/json"@);
    let agent = ("User-Agent"@, "sendly-rs/"@ + VERSION@);
    if with_body {
        seq![authorization, ("Content-Type"@, "application/json"@), accept, agent]
    } else {
        seq![authorization, accept, agent]
    }
}

/// The client.
#[derive(Debug, Clone)]
pub struct Sendly {
    api_key: String,
    config: SendlyConfig,
}

impl Sendly {
    /// The API key that the client was made with.
    pub closed spec fn spec_api_key(&self) -> Seq<char> {
        self.api_key@
    }

    /// The configuration that the client was made with.
    pub closed spec fn spec_config(&self) -> SendlyConfig {
        self.config
    }

    /// Whether `request` is the request that this client sends with the given
    /// method to `path`, with the given query parameters and body.
    pub open spec fn prepares(
        &self,
        request: Request,
        method: Method,
        path: Seq<char>,
        query: Seq<(Seq<char>, Seq<char>)>,
        body: Option<Seq<char>>,
    ) -> bool {
        &&& request.method == method
        &&& request.url@ == self.spec_config().base_url@ + path
        &&& pairs_text(request.query@) == query
        &&& pairs_text(request.headers@) == request_headers(self.spec_api_key(), body is Some)
        &&& text_of(request.body) == body
    }

    /// Creates a client with the default configuration.
    pub fn new(api_key: &str) -> (client: Self)
        ensures
            client.spec_api_key() == api_key@,
            client.spec_config().base_url@ == DEFAULT_BASE_URL@,
            client.spec_config().timeout_ms == 30_000,
            client.spec_config().max_retries == 3,
    {
        Sendly { api_key: api_key.to_string(), config: SendlyConfig::new() }
    }

    /// Creates a client with a configuration of the caller's.
    pub fn with_config(api_key: &str, config: SendlyConfig) -> (client: Self)
        ensures
            client.spec_api_key() == api_key@,
            client.spec_config() == config,
    {
        Sendly { api_key: api_key.to_string(), config }
    }

    /// The configuration of the client.
    pub fn config(&self) -> (config: &SendlyConfig)
        ensures
            *config == self.spec_config(),
    {
        &self.config
    }

    /// The API key of the client.
    pub fn api_key(&self) -> (key: &str)
        ensures
            key@ == self.spec_api_key(),
    {
        self.api_key.as_str()
    }

    fn headers(&self, with_body: bool) -> (headers: Vec<(String, String)>)
        ensures
            pairs_text(headers@) == request_headers(self.spec_api_key(), with_body),
    {
        let mut headers: Vec<(String, String)> = Vec::new();
        headers.push(("Authorization".to_string(), concat("Bearer ", self.api_key.as_str())));
        if with_body {
            headers.push(("Content-Type".to_string(), "application/json".to_string()));
        }
        headers.push(("Accept".to_string(), "application/json".to_string()));
        headers.push(("User-Agent".to_string(), concat("sendly-rs/", VERSION)));
        assert(pairs_text(headers@) =~= request_headers(self.spec_api_key(), with_body));
        headers
    }

    /// Prepares a GET request for `path` with the given query parameters.
    pub fn get(&self, path: &str, query: Vec<(String, String)>) -> (request: Request)
        ensures
            self.prepares(request, Method::Get, path@, pairs_text(query@), None),
    {
        self.prepare(Method::Get, path, query, None)
    }

    /// Prepares a POST request for `path` whose body is the JSON text `body`.
    pub fn post(&self, path: &str, body: String) -> (request: Request)
        ensures
            self.prepares(request, Method::Post, path@, Seq::empty(), Some(body@)),
    {
        let request = self.prepare(Method::Post, path, Vec::new(), Some(body));
        assert(pairs_text(request.query@) =~= Seq::empty());
        request
    }

    /// Prepares a PATCH request for `path` whose body is the JSON text `body`.
    pub fn patch(&self, path: &str, body: String) -> (request: Request)
        ensures
            self.prepares(request, Method::Patch, path@, Seq::empty(), Some(body@)),
    {
        let request = self.prepare(Method::Patch, path, Vec::new(), Some(body));
        assert(pairs_text(request.query@) =~= Seq::empty());
        request
    }

    /// Prepares a DELETE request for `path`.
    pub fn delete(&self, path: &str) -> (request: Request)
        ensures
            self.prepares(request, Method::Delete, path@, Seq::empty(), None),
    {
        let request = self.prepare(Method::Delete, path, Vec::new(), None);
        assert(pairs_text(request.query@) =~= Seq::empty());
        request
    }

    /// Judges a response: one with a success status is handed on unchanged,
    /// any other becomes the error that its status stands for, with the text
    /// of its error envelope.
    pub fn handle_response(&self, response: RawResponse) -> (result: Result<RawResponse, Error>)
        ensures
            verdict_of(result) == classify(response),
    {
        let status = response.status;
        if 200 <= status && status < 300 {
            return Ok(response);
        }
        let retry_after = match &response.retry_after {
            Some(text) => parse_u64(text.as_str()),
            None => None,
        };
        let (message, code) = match response.error_body {
            Some(body) => (body.message(), body.code),
            None => ("Unknown error".to_string(), None),
        };
        Err(
            if status == 401 {
                Error::Authentication { message }
            } else if status == 402 {
                Error::InsufficientCredits { message }
            } else if status == 404 {
                Error::NotFound { message }
            } else if status == 429 {
                Error::RateLimit { message, retry_after }
            } else if status == 400 || status == 422 {
                Error::Validation { message }
            } else {
                Error::Api { message, status_code: status, code }
            },
        )
    }

    /// The seconds to wait before attempt number `attempt`, counted from
    /// zero: one before the second attempt, and twice as long each time.
    pub fn backoff_delay(attempt: u32) -> (secs: u64)
        requires
            1 <= attempt <= MAX_RETRY_LIMIT,
        ensures
            secs == pow2((attempt - 1) as nat),
    {
        let mut secs: u64 = 1;
        let mut done: u32 = 1;
        proof {
            lemma2_to64_rest();
            lemma2_to64();
        }
        while done < attempt
            invariant
                1 <= done <= attempt <= 64,
                secs == pow2((done - 1) as nat),
                pow2(63) == 0x8000000000000000,
            decreases attempt - done,
        {
            proof {
                lemma_pow2_unfold(done as nat);
                if done < 63 {
                    lemma_pow2_strictly_increases(done as nat, 63);
                }
            }
            secs = secs * 2;
            done = done + 1;
        }
        secs
    }

    /// The state in which a call starts: the first attempt, with no failure
    /// behind it.
    pub fn begin() -> (state: RetryState)
        ensures
            state.attempt == 0,
            state.last_error is None,
    {
        RetryState { attempt: 0, last_error: None }
    }

    /// Decides what follows an attempt.
    ///
    /// A response ends the call, whatever its status.  A timeout or a failed
    /// connection is tried again after the backoff delay, unless the attempt
    /// was the last one allowed, in which case it is the result of the call.
    /// Any other transport failure ends the call at once.
    pub fn next_step(
        &self,
        state: RetryState,
        outcome: Result<RawResponse, TransportError>,
    ) -> (step: RetryStep)
        requires
            state.attempt <= self.spec_config().max_retries <= MAX_RETRY_LIMIT,
        ensures
            step_matches(self.spec_config().max_retries, state.attempt, outcome, step),
    {
        match outcome {
            Ok(response) => RetryStep::Done(self.handle_response(response)),
            Err(failure) => {
                let error = match failure {
                    TransportError::Timeout => Error::Timeout,
                    TransportError::Connect { message } => Error::Network { message },
                    TransportError::Other { message } => {
                        return RetryStep::Done(Err(Error::Http(message)));
                    },
                };
                if state.attempt < self.config.max_retries {
                    let next = state.attempt + 1;
                    RetryStep::Retry {
                        state: RetryState { attempt: next, last_error: Some(error) },
                        delay_secs: Self::backoff_delay(next),
                    }
                } else {
                    RetryStep::Done(Err(error))
                }
            },
        }
    }

    /// Runs one call to its end: hands `request` to `transport` for each
    /// attempt, waits with `sleep` for the backoff delay before each attempt
    /// but the first, and reports what [`Sendly::next_step`] decides to be the
    /// result, with the number of attempts made and the seconds waited.
    pub fn run_call<T, S>(
        &self,
        request: &Request,
        transport: T,
        sleep: S,
    ) -> (report: CallReport) where
        T: Fn(&Request) -> Result<RawResponse, TransportError>,
        S: Fn(u64) -> (),

        requires
            self.spec_config().max_retries <= MAX_RETRY_LIMIT,
            call_requires(transport, (request,)),
            forall|secs: u64| call_requires(sleep, (secs,)),
        ensures
            exists|script: Seq<Result<RawResponse, TransportError>>|
                {
                    &&& #[trigger] answered_by(transport, request, script)
                    &&& script.len() == report.attempts
                    &&& execution(self.spec_config().max_retries as nat, script) == (Execution {
                        verdict: verdict_of(report.result),
                        attempts: report.attempts as nat,
                        slept_secs: report.slept_secs as nat,
                    })
                },
    {
        let mut state = Self::begin();
        let mut slept: u64 = 0;
        let ghost mut script: Seq<Result<RawResponse, TransportError>> = Seq::empty();
        let ghost limit = self.config.max_retries as nat;
        loop
            invariant
                limit == self.spec_config().max_retries,
                state.attempt <= self.spec_config().max_retries <= MAX_RETRY_LIMIT,
                script.len() == state.attempt,
                slept == total_backoff(state.attempt as nat),
                answered_by(transport, request, script),
                forall|i: int| 0 <= i < script.len() ==> failed_transiently(#[trigger] script[i]),
                call_requires(transport, (request,)),
                forall|secs: u64| call_requires(sleep, (secs,)),
            decreases self.spec_config().max_retries - state.attempt,
        {
            let ghost attempt = state.attempt as nat;
            let made: u32 = state.attempt + 1;
            let outcome = transport(request);
            proof {
                let ghost earlier = script;
                script = earlier.push(outcome);
                assert forall|i: int| 0 <= i < script.len() implies call_ensures(
                    transport,
                    (request,),
                    #[trigger] script[i],
                ) by {
                    if i < earlier.len() {
                        assert(script[i] == earlier[i]);
                    }
                }
                assert forall|i: int| 0 <= i < attempt implies failed_transiently(
                    #[trigger] script[i],
                ) by {
                    assert(script[i] == earlier[i]);
                }
                lemma_execution_resumes(limit, script, attempt);
                assert(script[attempt as int] == outcome);
            }
            match self.next_step(state, outcome) {
                RetryStep::Done(result) => {
                    assert(answered_by(transport, request, script));
                    return CallReport { result, attempts: made, slept_secs: slept };
                },
                RetryStep::Retry { state: next, delay_secs } => {
                    proof {
                        lemma_total_backoff(attempt + 1);
                        lemma2_to64();
                        if attempt + 1 < 64 {
                            lemma_pow2_strictly_increases(attempt + 1, 64);
                        }
                    }
                    sleep(delay_secs);
                    slept = slept + delay_secs;
                    state = next;
                },
            }
        }
    }

    /// Runs one call to its end, as [`Sendly::run_call`] does, and returns
    /// its result.
    pub fn request_with_retry<T, S>(
        &self,
        request: &Request,
        transport: T,
        sleep: S,
    ) -> (result: Result<RawResponse, Error>) where
        T: Fn(&Request) -> Result<RawResponse, TransportError>,
        S: Fn(u64) -> (),

        requires
            self.spec_config().max_retries <= MAX_RETRY_LIMIT,
            call_requires(transport, (request,)),
            forall|secs: u64| call_requires(sleep, (secs,)),
        ensures
            exists|script: Seq<Result<RawResponse, TransportError>>|
                {
                    &&& #[trigger] answered_by(transport, request, script)
                    &&& script.len() == execution(
                        self.spec_config().max_retries as nat,
                        script,
                    ).attempts
                    &&& verdict_of(result) == execution(
                        self.spec_config().max_retries as nat,
                        script,
                    ).verdict
                },
    {
        self.run_call(request, transport, sleep).result
    }

    /// Puts a request together: the URL from the base URL and `path`, the
    /// headers that every request carries, and the content type where there
    /// is a body.
    pub fn prepare(
        &self,
        method: Method,
        path: &str,
        query: Vec<(String, String)>,
        body: Option<String>,
    ) -> (request: Request)
        ensures
            self.prepares(request, method, path@, pairs_text(query@), text_of(body)),
    {
        let with_body = body.is_some();
        Request {
            method,
            url: concat(self.config.base_url.as_str(), path),
            query,
            headers: self.headers(with_body),
            body,
        }
    }

    /// Executes one operation of the API: prepares the request, makes
    /// attempts through `transport` until one is answered or the retries are
    /// used up, and judges the response.
    pub fn execute<T, S>(
        &self,
        method: Method,
        path: &str,
        query: Vec<(String, String)>,
        body: Option<String>,
        transport: T,
        sleep: S,
    ) -> (result: Result<RawResponse, Error>) where
        T: Fn(&Request) -> Result<RawResponse, TransportError>,
        S: Fn(u64) -> (),

        requires
            self.spec_config().max_retries <= MAX_RETRY_LIMIT,
            forall|request: &Request| call_requires(transport, (request,)),
            forall|secs: u64| call_requires(sleep, (secs,)),
        ensures
            exists|request: Request, script: Seq<Result<RawResponse, TransportError>>|
                {
                    &&& self.prepares(request, method, path@, pairs_text(query@), text_of(body))
                    &&& #[trigger] answered_by(transport, &request, script)
                    &&& script.len() == execution(
                        self.spec_config().max_retries as nat,
                        script,
                    ).attempts
                    &&& verdict_of(result) == execution(
                        self.spec_config().max_retries as nat,
                        script,
                    ).verdict
                },
    {
        let request = self.prepare(method, path, query, body);
        self.request_with_retry(&request, transport, sleep)
    }
}

/// A call whose first `attempt` attempts all failed in a way that is tried
/// again goes on as from attempt number `attempt`.
pub proof fn lemma_execution_resumes(
    max_retries: nat,
    script: Seq<Result<RawResponse, TransportError>>,
    attempt: nat,
)
    requires
        attempt <= max_retries,
        forall|i: int| 0 <= i < attempt ==> failed_transiently(#[trigger] script[i]),
    ensures
        execution(max_retries, script) == execution_from(max_retries, script, attempt),
    decreases attempt,
{
    if attempt > 0 {
        lemma_execution_resumes(max_retries, script, (attempt - 1) as nat);
        assert(failed_transiently(script[attempt - 1]));
    }
}

/// The delays before the first `attempt` retries add up to one second less
/// than the delay that would come next.
pub proof fn lemma_total_backoff(attempt: nat)
    ensures
        total_backoff(attempt) == pow2(attempt) - 1,
    decreases attempt,
{
    if attempt == 0 {
        lemma2_to64();
    } else {
        lemma_total_backoff((attempt - 1) as nat);
        lemma_pow2_unfold(attempt);
    }
}

/// Against a transport that always times out, a call that allows
/// `max_retries` retries makes `max_retries + 1` attempts, waits
/// `1 + 2 + ... + 2^(max_retries - 1)` seconds in all, and fails with a
/// timeout.
pub proof fn lemma_timeouts_exhaust_retries(
    max_retries: nat,
    script: Seq<Result<RawResponse, TransportError>>,
)
    requires
        forall|i: int| 0 <= i <= max_retries ==> timed_out(#[trigger] script[i]),
    ensures
        execution(max_retries, script).verdict == Verdict::Failure(ErrorView::Timeout),
        execution(max_retries, script).attempts == max_retries + 1,
        execution(max_retries, script).slept_secs == total_backoff(max_retries),
        total_backoff(max_retries) == pow2(max_retries) - 1,
{
    assert forall|i: int| 0 <= i < max_retries implies failed_transiently(#[trigger] script[i]) by {
        assert(timed_out(script[i]));
    }
    lemma_execution_resumes(max_retries, script, max_retries);
    assert(timed_out(script[max_retries as int]));
    lemma_total_backoff(max_retries);
}

/// A call makes more attempts than were made before any given one.
pub proof fn lemma_attempts_exceed(
    max_retries: nat,
    script: Seq<Result<RawResponse, TransportError>>,
    attempt: nat,
)
    requires
        attempt <= max_retries,
    ensures
        execution_from(max_retries, script, attempt).attempts > attempt,
    decreases max_retries - attempt,
{
    if attempt < max_retries {
        lemma_attempts_exceed(max_retries, script, attempt + 1);
    }
}

/// A call that was run against a transport that only ever times out, and
/// whose attempts are those of `script`, made `max_retries + 1` attempts,
/// waited `1 + 2 + ... + 2^(max_retries - 1)` seconds in all, and failed with
/// a timeout.
pub proof fn lemma_call_against_timeouts(
    max_retries: nat,
    script: Seq<Result<RawResponse, TransportError>>,
)
    requires
        forall|i: int| 0 <= i < script.len() ==> timed_out(#[trigger] script[i]),
        execution(max_retries, script).attempts == script.len(),
    ensures
        script.len() == max_retries + 1,
        execution(max_retries, script) == (Execution {
            verdict: Verdict::Failure(ErrorView::Timeout),
            attempts: max_retries + 1,
            slept_secs: total_backoff(max_retries),
        }),
        total_backoff(max_retries) == pow2(max_retries) - 1,
{
    assert forall|i: int| 0 <= i < script.len() implies failed_transiently(
        #[trigger] script[i],
    ) by {
        assert(timed_out(script[i]));
    }
    if script.len() <= max_retries {
        lemma_execution_resumes(max_retries, script, script.len());
        lemma_attempts_exceed(max_retries, script, script.len());
    }
    lemma_timeouts_exhaust_retries(max_retries, script);
}

/// A response to the first attempt ends the call without a retry and without
/// a wait, whatever its status.
pub proof fn lemma_response_ends_call(
    max_retries: nat,
    script: Seq<Result<RawResponse, TransportError>>,
    response: RawResponse,
)
    requires
        script[0] == Ok::<RawResponse, TransportError>(response),
    ensures
        execution(max_retries, script) == (Execution {
            verdict: classify(response),
            attempts: 1,
            slept_secs: 0,
        }),
{
}

/// A server error on the first attempt is the result of the call: it is not
/// tried again, and nothing is waited for.
pub proof fn lemma_server_error_not_retried(
    max_retries: nat,
    script: Seq<Result<RawResponse, TransportError>>,
    response: RawResponse,
)
    requires
        script[0] == Ok::<RawResponse, TransportError>(response),
        response.status == 500,
    ensures
        execution(max_retries, script).verdict == Verdict::Failure(
            ErrorView::Api {
                message: envelope_message(response.error_body),
                status_code: 500,
                code: envelope_code(response.error_body),
            },
        ),
        execution(max_retries, script).attempts == 1,
        execution(max_retries, script).slept_secs == 0,
{
}

/// Each documented failure status stands for its kind of error, and of these
/// only a rate limit is worth trying again.
pub proof fn lemma_status_classification(response: RawResponse)
    ensures
        response.status == 401 ==> failure_of(response) is Authentication && !failure_of(
            response,
        ).retryable(),
        response.status == 402 ==> failure_of(response) is InsufficientCredits && !failure_of(
            response,
        ).retryable(),
        response.status == 404 ==> failure_of(response) is NotFound && !failure_of(
            response,
        ).retryable(),
        response.status == 429 ==> failure_of(response) is RateLimit && failure_of(
            response,
        ).retryable(),
        response.status == 400 || response.status == 422 ==> failure_of(response) is Validation
            && !failure_of(response).retryable(),
        !is_success(response.status) ==> classify(response) == Verdict::Failure(
            failure_of(response),
        ),
{
}

/// A rate limit carries the seconds of the `Retry-After` header where the
/// header is a number, and none where there is no such header.
pub proof fn lemma_rate_limit_retry_after(response: RawResponse)
    requires
        response.status == 429,
    ensures
        failure_of(response).retry_after() == retry_after_seconds(response.retry_after),
        response.retry_after is None ==> failure_of(response).retry_after() is None,
{
}

} // verus!
