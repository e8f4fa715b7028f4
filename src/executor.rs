//! The decisions of the retrying request executor.
//!
//! One attempt of a call chain clones the prepared request, sends it and
//! hands the response to [`on_response`], which says whether to accept it,
//! fail, or wait and retry. Sending and waiting are left to the caller.
//! Status 429 and 503 are terminal: the caller gets the server's
//! `Retry-After` hint instead of a blind retry against an explicit throttle.

use vstd::prelude::*;

use crate::backoff::{backoff_delay, delay_before_retry};
use crate::error::{ApiError, ErrorKind};
use crate::retry_after::{parse_retry_after, retry_after_seconds, RETRY_AFTER_HEADER};
use crate::settings::RetryData;

verus! {

#[verifier::external_type_specification]
#[verifier::external_body]
pub struct ExRequestBuilder(reqwest::RequestBuilder);

#[verifier::external_type_specification]
#[verifier::external_body]
pub struct ExResponse(reqwest::Response);

/// Whether `reqwest` can copy the request a builder describes: false when
/// its body is a stream that cannot be replayed, or when the builder holds an
/// error.
pub uninterp spec fn replayable(builder: reqwest::RequestBuilder) -> bool;

/// Relies on `reqwest::RequestBuilder::try_clone`: an independent copy of
/// the request, or `None` when it cannot be copied; which of the two depends
/// on the builder alone.
pub assume_specification[ reqwest::RequestBuilder::try_clone ](
    builder: &reqwest::RequestBuilder,
) -> (r: Option<reqwest::RequestBuilder>)
    ensures
        r is Some <==> replayable(*builder),
;

/// The numeric status of a response.
pub uninterp spec fn response_status(response: reqwest::Response) -> u16;

/// The bytes of the first value of the header `name` of a response, if it
/// has one; header names are compared without regard to case.
pub uninterp spec fn response_header(response: reqwest::Response, name: Seq<char>) -> Option<Seq<u8>>;

/// Relies on `reqwest::Response::status` and `http::StatusCode::as_u16`: the
/// numeric status stored in the response, which `StatusCode` keeps within
/// 100..=999.
#[verifier::external_body]
fn status_code(response: &reqwest::Response) -> (r: u16)
    ensures
        r == response_status(*response),
        100 <= r <= 999,
{
    response.status().as_u16()
}

/// Relies on `reqwest::Response::headers`, `http::HeaderMap::get` and
/// `http::HeaderValue::as_bytes`: the bytes of the first value of the header
/// `name`, compared without regard to case, if the response has one.
#[verifier::external_body]
fn header_bytes(response: &reqwest::Response, name: &str) -> (r: Option<Vec<u8>>)
    ensures
        match r {
            Some(v) => response_header(*response, name@) == Some(v@),
            None => response_header(*response, name@) is None,
        },
{
    response.headers().get(name).map(|v| v.as_bytes().to_vec())
}

/// What the executor does after one attempt.
#[derive(Debug)]
pub enum Step {
    /// The response is the result of the call.
    Accept,
    /// The call fails with this error.
    Fail(ApiError),
    /// Wait `delay_ms` milliseconds, then attempt again with `next`.
    Retry { delay_ms: u64, next: RetryData },
}

/// A [`Step`] with its error reduced to the error's kind.
pub enum Decision {
    Accept,
    Fail(ErrorKind),
    Retry { delay_ms: u64, next: RetryData },
}

impl Step {
    pub open spec fn decision(&self) -> Decision {
        match self {
            Step::Accept => Decision::Accept,
            Step::Fail(e) => Decision::Fail(e.kind()),
            Step::Retry { delay_ms, next } => Decision::Retry { delay_ms: *delay_ms, next: *next },
        }
    }
}

/// Status 200..=299.
pub open spec fn is_success(status: u16) -> bool {
    200 <= status <= 299
}

/// 429 Too Many Requests or 503 Service Unavailable.
pub open spec fn signals_rate_limit(status: u16) -> bool {
    status == 429 || status == 503
}

/// A status that takes part in the backoff loop.
pub open spec fn is_plain_failure(status: u16) -> bool {
    !is_success(status) && !signals_rate_limit(status)
}

pub open spec fn header_view(h: Option<&[u8]>) -> Option<Seq<u8>> {
    match h {
        Some(v) => Some(v@),
        None => None,
    }
}

/// The decision on a response with `status` and `Retry-After` value
/// `retry_after`, in a chain whose state is `retry` (`None`: no retrying).
pub open spec fn decide(retry: Option<RetryData>, status: u16, retry_after: Option<Seq<u8>>) -> Decision {
    if is_success(status) {
        Decision::Accept
    } else if signals_rate_limit(status) {
        Decision::Fail(
            ErrorKind::RateLimited(
                match retry_after {
                    Some(v) => retry_after_seconds(v),
                    None => None,
                },
            ),
        )
    } else {
        match retry {
            None => Decision::Fail(ErrorKind::UnexpectedStatus(status)),
            Some(d) => if d.retry_count >= d.settings.max_retries {
                Decision::Fail(ErrorKind::UnexpectedStatus(status))
            } else {
                match backoff_delay(d.settings, (d.retry_count + 1) as nat) {
                    None => Decision::Fail(ErrorKind::BackoffOverflow),
                    Some(ms) => Decision::Retry {
                        delay_ms: ms,
                        next: RetryData { settings: d.settings, retry_count: (d.retry_count + 1) as u32 },
                    },
                }
            },
        }
    }
}

/// Decides what follows a response with `status` whose `Retry-After` header
/// holds `retry_after`.
pub fn on_response(retry: &Option<RetryData>, status: u16, retry_after: Option<&[u8]>) -> (r: Step)
    ensures
        r.decision() == decide(*retry, status, header_view(retry_after)),
{
    if 200 <= status && status <= 299 {
        return Step::Accept;
    }
    if status == 429 || status == 503 {
        let seconds = match retry_after {
            Some(v) => parse_retry_after(v),
            None => None,
        };
        return Step::Fail(ApiError::ApiRequestsWait(seconds));
    }
    match retry {
        None => Step::Fail(ApiError::UnexpectedStatusCode(status)),
        Some(d) => {
            if d.retry_count >= d.settings.max_retries {
                return Step::Fail(ApiError::UnexpectedStatusCode(status));
            }
            let count = d.retry_count + 1;
            match delay_before_retry(&d.settings, count) {
                None => Step::Fail(ApiError::BackoffOverflow("exceeded maximum backoff value".to_string())),
                Some(ms) => Step::Retry {
                    delay_ms: ms,
                    next: RetryData { settings: d.settings, retry_count: count },
                },
            }
        },
    }
}

/// An independently sendable copy of `builder`, or
/// [`ApiError::RequestBuilderClone`] when its body cannot be replayed; in that
/// case nothing may be sent.
pub fn reissue(builder: &reqwest::RequestBuilder) -> (r: Result<reqwest::RequestBuilder, ApiError>)
    ensures
        r is Ok <==> replayable(*builder),
        r is Err ==> r->Err_0.kind() == ErrorKind::NotReissuable,
{
    match builder.try_clone() {
        Some(b) => Ok(b),
        None => Err(ApiError::RequestBuilderClone()),
    }
}

/// Decides what follows `response`: the decision of [`on_response`] on its
/// status and its `Retry-After` header.
pub fn classify_response(retry: &Option<RetryData>, response: &reqwest::Response) -> (r: Step)
    ensures
        r.decision() == decide(
            *retry,
            response_status(*response),
            response_header(*response, RETRY_AFTER_HEADER@),
        ),
{
    let status = status_code(response);
    let header = header_bytes(response, RETRY_AFTER_HEADER);
    match header {
        Some(v) => on_response(retry, status, Some(v.as_slice())),
        None => on_response(retry, status, None),
    }
}

} // verus!
