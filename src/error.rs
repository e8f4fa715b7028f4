//! Errors of a call to the API.

use vstd::prelude::*;

verus! {

#[verifier::external_type_specification]
#[verifier::external_body]
pub struct ExReqwestError(reqwest::Error);

/// Every way a call to the API can fail.
#[derive(Debug)]
pub enum ApiError {
    /// The server answered 429 or 503; holds the seconds of its
    /// `Retry-After` header when that header gave a number.
    ApiRequestsWait(Option<u64>),
    /// The request could not be sent (connection, DNS, TLS, timeout).
    Reqwest(reqwest::Error),
    /// The server answered a status outside 2xx, after any retries.
    UnexpectedStatusCode(u16),
    /// The response body was not the expected JSON.
    Deserialize(reqwest::Error),
    /// A received record could not be turned into its structured form.
    Conversion(String),
    /// The backoff delay does not fit in `u64`: the policy is misconfigured.
    BackoffOverflow(String),
    /// The request has a body that cannot be sent twice.
    RequestBuilderClone(),
}

/// The kind of an [`ApiError`], without its payload.
pub enum ErrorKind {
    RateLimited(Option<u64>),
    Transport,
    UnexpectedStatus(u16),
    Deserialize,
    Conversion,
    BackoffOverflow,
    NotReissuable,
}

impl ApiError {
    pub open spec fn kind(&self) -> ErrorKind {
        match self {
            ApiError::ApiRequestsWait(s) => ErrorKind::RateLimited(*s),
            ApiError::Reqwest(_) => ErrorKind::Transport,
            ApiError::UnexpectedStatusCode(c) => ErrorKind::UnexpectedStatus(*c),
            ApiError::Deserialize(_) => ErrorKind::Deserialize,
            ApiError::Conversion(_) => ErrorKind::Conversion,
            ApiError::BackoffOverflow(_) => ErrorKind::BackoffOverflow,
            ApiError::RequestBuilderClone() => ErrorKind::NotReissuable,
        }
    }
}

} // verus!
