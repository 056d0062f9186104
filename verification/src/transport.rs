//! Sending described requests through a transport that the caller supplies.
//!
//! A transport is a function from a request to a response or to the transport's own error.
//! The client adds its response hook and its error type, and repeats a request under a
//! retry policy.

use vstd::prelude::*;
use crate::client::HttpRequest;
use crate::exception::HttpRequestError;
use crate::interval::Interval;
use crate::request::{Header, RequestDescriptor};
use crate::response::HttpResponse;
use crate::retry::{answers, execute, outcome_of, RetryError, RetryPolicy};

verus! {

/// A point in time of the monotonic clock. Nothing here looks inside one.
#[verifier::external_type_specification]
#[verifier::external_body]
pub struct ExInstant(std::time::Instant);

/// Calls `std::time::Instant::now`. Nothing is claimed of the result.
#[verifier::external_body]
pub(crate) fn clock_now() -> std::time::Instant {
    std::time::Instant::now()
}

/// Calls `std::time::Instant::elapsed`. Nothing is claimed of the result.
#[verifier::external_body]
pub(crate) fn clock_elapsed(start: &std::time::Instant) -> std::time::Duration {
    start.elapsed()
}

/// Calls `serde_json::from_str` for a `serde_json::Value`. Nothing is claimed of the
/// result.
#[verifier::external_body]
pub(crate) fn parse_json(text: &str) -> Result<serde_json::Value, serde_json::Error> {
    serde_json::from_str(text)
}

/// `outcome` is what the client makes of something `send` may answer to `request`: the
/// response as it is, or the transport's error as a [`HttpRequestError::RequestBuilderError`].
pub open spec fn delivered<E, S: Fn(RequestDescriptor) -> Result<HttpResponse, E>>(
    send: &S,
    request: RequestDescriptor,
    outcome: Result<HttpResponse, HttpRequestError<E>>,
) -> bool {
    match outcome {
        Ok(response) => call_ensures(*send, (request,), Ok(response)),
        Err(HttpRequestError::RequestBuilderError(error)) => call_ensures(
            *send,
            (request,),
            Err(error),
        ),
        Err(HttpRequestError::JsonError(_)) => false,
    }
}

/// `outcome` is what the client makes of something `send` may answer to a request that
/// `provider` may build.
pub open spec fn provided<E, F: Fn() -> RequestDescriptor, S: Fn(RequestDescriptor) -> Result<HttpResponse, E>>(
    provider: &F,
    send: &S,
    outcome: Result<HttpResponse, HttpRequestError<E>>,
) -> bool {
    exists|request: RequestDescriptor|
        call_ensures(*provider, (), request) && #[trigger] delivered(send, request, outcome)
}

/// `send` may be called with `request`.
pub open spec fn sendable<E, S: Fn(RequestDescriptor) -> Result<HttpResponse, E>>(
    send: &S,
    request: RequestDescriptor,
) -> bool {
    call_requires(*send, (request,))
}

/// What a parsed body becomes: the document, or the parser's error as a
/// [`HttpRequestError::JsonError`].
pub fn json_outcome<E>(parsed: Result<serde_json::Value, serde_json::Error>) -> (outcome: Result<
    serde_json::Value,
    HttpRequestError<E>,
>)
    ensures
        outcome == match parsed {
            Ok(document) => Ok::<serde_json::Value, HttpRequestError<E>>(document),
            Err(error) => Err(HttpRequestError::JsonError(error)),
        },
{
    match parsed {
        Ok(document) => Ok(document),
        Err(error) => Err(HttpRequestError::from(error)),
    }
}

impl HttpRequest {
    /// Sends `request` through `send` and shows the response to the response hook, if
    /// one is set.
    pub fn send_request<E, S>(&self, request: RequestDescriptor, send: &S) -> (outcome: Result<
        HttpResponse,
        HttpRequestError<E>,
    >) where S: Fn(RequestDescriptor) -> Result<HttpResponse, E>
        requires
            call_requires(*send, (request,)),
        ensures
            delivered(send, request, outcome),
    {
        match send(request) {
            Ok(response) => {
                self.show_response(&response);
                Ok(response)
            },
            Err(error) => Err(HttpRequestError::RequestBuilderError(error)),
        }
    }

    /// Sends `request` and returns the status code of the response.
    pub fn status_code<E, S>(&self, request: RequestDescriptor, send: &S) -> (outcome: Result<
        u16,
        HttpRequestError<E>,
    >) where S: Fn(RequestDescriptor) -> Result<HttpResponse, E>
        requires
            call_requires(*send, (request,)),
        ensures
            match outcome {
                Ok(code) => exists|response: HttpResponse|
                    #[trigger] delivered(send, request, Ok::<HttpResponse, HttpRequestError<E>>(response))
                        && code == response.status_code,
                Err(error) => delivered(send, request, Err::<HttpResponse, HttpRequestError<E>>(error)),
            },
    {
        match self.send_request(request, send) {
            Ok(response) => Ok(response.status_code),
            Err(error) => Err(error),
        }
    }

    /// Sends `request` and returns the headers of the response.
    pub fn headers<E, S>(&self, request: RequestDescriptor, send: &S) -> (outcome: Result<
        Vec<Header>,
        HttpRequestError<E>,
    >) where S: Fn(RequestDescriptor) -> Result<HttpResponse, E>
        requires
            call_requires(*send, (request,)),
        ensures
            match outcome {
                Ok(headers) => exists|response: HttpResponse|
                    #[trigger] delivered(send, request, Ok::<HttpResponse, HttpRequestError<E>>(response))
                        && headers == response.headers,
                Err(error) => delivered(send, request, Err::<HttpResponse, HttpRequestError<E>>(error)),
            },
    {
        match self.send_request(request, send) {
            Ok(response) => Ok(response.headers),
            Err(error) => Err(error),
        }
    }

    /// Sends `request` and, if it is answered, returns the time that the sending took, as the
    /// monotonic clock measured it.
    pub fn elapsed_time<E, S>(&self, request: RequestDescriptor, send: &S) -> (outcome: Result<
        std::time::Duration,
        HttpRequestError<E>,
    >) where S: Fn(RequestDescriptor) -> Result<HttpResponse, E>
        requires
            call_requires(*send, (request,)),
        ensures
            match outcome {
                Ok(_) => exists|response: HttpResponse|
                    #[trigger] delivered(send, request, Ok::<HttpResponse, HttpRequestError<E>>(response)),
                Err(error) => delivered(send, request, Err::<HttpResponse, HttpRequestError<E>>(error)),
            },
    {
        let start = clock_now();
        match self.send_request(request, send) {
            Ok(_) => Ok(clock_elapsed(&start)),
            Err(error) => Err(error),
        }
    }

    /// Sends `request` and parses the body of the response as JSON.
    pub fn json<E, S>(&self, request: RequestDescriptor, send: &S) -> (outcome: Result<
        serde_json::Value,
        HttpRequestError<E>,
    >) where S: Fn(RequestDescriptor) -> Result<HttpResponse, E>
        requires
            call_requires(*send, (request,)),
        ensures
            match outcome {
                Err(HttpRequestError::RequestBuilderError(error)) => call_ensures(
                    *send,
                    (request,),
                    Err(error),
                ),
                _ => exists|response: HttpResponse|
                    #[trigger] delivered(send, request, Ok::<HttpResponse, HttpRequestError<E>>(response)),
            },
    {
        match self.send_request(request, send) {
            Ok(response) => json_outcome(parse_json(response.response_body.as_str())),
            Err(error) => Err(error),
        }
    }

    /// Sends the requests that `request_build_provider` builds, one after another, until
    /// one is answered or the attempts allowed are spent, calling `pause` with the pause of
    /// the policy between two attempts. `max_retries` defaults to 3 and `backoff` to one
    /// second.
    ///
    /// The outcome is that of a finished operation under the policy that was not withdrawn,
    /// whose attempts are what [`HttpRequest::send_request`] makes of the transport's
    /// answers.
    pub fn retry_request_builder<E, F, S, P>(
        &self,
        request_build_provider: F,
        send: &S,
        pause: P,
        max_retries: Option<usize>,
        backoff: Option<Interval>,
    ) -> (outcome: Result<HttpResponse, RetryError<HttpRequestError<E>>>) where
        F: Fn() -> RequestDescriptor,
        S: Fn(RequestDescriptor) -> Result<HttpResponse, E>,
        P: Fn(Interval) -> (),

        requires
            call_requires(request_build_provider, ()),
            forall|request: RequestDescriptor|
                call_ensures(request_build_provider, (), request) ==> call_requires(
                    *send,
                    (request,),
                ),
            call_requires(pause, (RetryPolicy::resolved(max_retries, backoff).backoff,)),
        ensures
            exists|attempts: Seq<Result<HttpResponse, HttpRequestError<E>>>|
                {
                    &&& #[trigger] RetryPolicy::resolved(max_retries, backoff).is_run(attempts, false)
                    &&& outcome == outcome_of(attempts, false)
                    &&& forall|i: int|
                        0 <= i < attempts.len() ==> provided(
                            &request_build_provider,
                            send,
                            #[trigger] attempts[i],
                        )
                },
    {
        let attempt = |request: RequestDescriptor| -> (outcome: Result<
            HttpResponse,
            HttpRequestError<E>,
        >)
            requires
                sendable(send, request),
            ensures
                delivered(send, request, outcome),
            { self.send_request(request, send) };
        let never = || -> (withdrawn: bool)
            ensures
                !withdrawn,
            { false };
        let report = execute(request_build_provider, attempt, pause, never, max_retries, backoff);
        proof {
            let (attempts, withdrawn) = choose|
                attempts: Seq<Result<HttpResponse, HttpRequestError<E>>>,
                withdrawn: bool,
            |
                {
                    &&& #[trigger] RetryPolicy::resolved(max_retries, backoff).is_run(attempts, withdrawn)
                    &&& crate::retry::reports(report, attempts, withdrawn)
                    &&& forall|i: int|
                        0 <= i < attempts.len() ==> answers(
                            request_build_provider,
                            attempt,
                            #[trigger] attempts[i],
                        )
                    &&& withdrawn ==> call_ensures(never, (), true)
                    &&& attempts.len() > 1 ==> call_ensures(never, (), false)
                };
            assert(!withdrawn);
            assert forall|i: int| 0 <= i < attempts.len() implies provided(
                &request_build_provider,
                send,
                #[trigger] attempts[i],
            ) by {
                assert(answers(request_build_provider, attempt, attempts[i]));
                let request = choose|request: RequestDescriptor|
                    call_ensures(request_build_provider, (), request) && #[trigger] call_ensures(
                        attempt,
                        (request,),
                        attempts[i],
                    );
                assert(delivered(send, request, attempts[i]));
            }
        }
        report.outcome
    }
}

} // verus!
