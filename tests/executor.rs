use wegli_api::backoff::delay_before_retry;
use wegli_api::error::ApiError;
use wegli_api::executor::{classify_response, on_response, reissue, Step};
use wegli_api::retry_after::parse_retry_after;
use wegli_api::settings::{RetryData, RetrySettings};

fn settings(max_retries: u32, initial_backoff_ms: u64, backoff_multiplier: u64) -> RetrySettings {
    RetrySettings { max_retries, initial_backoff_ms, backoff_multiplier }
}

/// Runs a call chain against a server that answers `replies` in turn, as the
/// executor's caller does; returns the last step, the attempts made and the
/// delays waited.
fn run_chain(retry: Option<RetryData>, replies: &[(u16, Option<&[u8]>)]) -> (Step, usize, Vec<u64>) {
    let mut state = retry;
    let mut delays = Vec::new();
    for (n, (status, header)) in replies.iter().enumerate() {
        match on_response(&state, *status, *header) {
            Step::Retry { delay_ms, next } => {
                delays.push(delay_ms);
                state = Some(next);
            }
            step => return (step, n + 1, delays),
        }
    }
    panic!("the server ran out of replies");
}

#[test]
fn retry_after_reads_decimal_seconds() {
    assert_eq!(parse_retry_after(b"120"), Some(120));
    assert_eq!(parse_retry_after(b"0"), Some(0));
    assert_eq!(parse_retry_after(b"007"), Some(7));
    assert_eq!(parse_retry_after(b"+7"), Some(7));
    assert_eq!(parse_retry_after(b"18446744073709551615"), Some(u64::MAX));
}

#[test]
fn retry_after_rejects_other_text() {
    assert_eq!(parse_retry_after(b""), None);
    assert_eq!(parse_retry_after(b"+"), None);
    assert_eq!(parse_retry_after(b"-1"), None);
    assert_eq!(parse_retry_after(b"soon"), None);
    assert_eq!(parse_retry_after(b"12 "), None);
    assert_eq!(parse_retry_after(b"Wed, 21 Oct 2015 07:28:00 GMT"), None);
    assert_eq!(parse_retry_after(b"18446744073709551616"), None);
}

#[test]
fn delay_grows_exponentially_from_the_first_retry() {
    let s = RetrySettings::default();
    assert_eq!(delay_before_retry(&s, 1), Some(600));
    assert_eq!(delay_before_retry(&s, 2), Some(1200));
    assert_eq!(delay_before_retry(&s, 5), Some(9600));
    assert_eq!(delay_before_retry(&settings(3, 7, 3), 3), Some(189));
    assert_eq!(delay_before_retry(&settings(3, 7, 0), 2), Some(0));
}

#[test]
fn delay_overflow_is_detected() {
    assert_eq!(delay_before_retry(&settings(3, 1, u64::MAX), 1), Some(u64::MAX));
    assert_eq!(delay_before_retry(&settings(3, 1, u64::MAX), 2), None);
    assert_eq!(delay_before_retry(&settings(3, u64::MAX, 2), 1), None);
    assert_eq!(delay_before_retry(&settings(70, 0, 2), 64), None);
    assert_eq!(delay_before_retry(&settings(70, 1, 2), 63), Some(1 << 63));
}

#[test]
fn default_policy() {
    let s = RetrySettings::default();
    assert_eq!(s, settings(5, 300, 2));
    let start = RetryData::start(&None);
    assert_eq!(start.retry_count, 0);
    assert_eq!(start.settings, s);
    let own = RetryData::start(&Some(settings(1, 2, 3)));
    assert_eq!(own.settings, settings(1, 2, 3));
    assert_eq!(own.retry_count, 0);
}

#[test]
fn success_is_accepted() {
    let retry = Some(RetryData::start(&None));
    assert!(matches!(on_response(&retry, 200, None), Step::Accept));
    assert!(matches!(on_response(&None, 204, None), Step::Accept));
    assert!(matches!(on_response(&retry, 299, Some(b"5")), Step::Accept));
}

#[test]
fn rate_limit_with_numeric_hint() {
    let retry = Some(RetryData::start(&None));
    let step = on_response(&retry, 429, Some(b"120"));
    assert!(matches!(step, Step::Fail(ApiError::ApiRequestsWait(Some(120)))));
}

#[test]
fn rate_limit_without_hint() {
    let retry = Some(RetryData::start(&None));
    assert!(matches!(on_response(&retry, 429, None), Step::Fail(ApiError::ApiRequestsWait(None))));
    assert!(matches!(
        on_response(&retry, 429, Some(b"in a minute")),
        Step::Fail(ApiError::ApiRequestsWait(None))
    ));
    assert!(matches!(on_response(&None, 503, Some(b"30")), Step::Fail(ApiError::ApiRequestsWait(Some(30)))));
}

#[test]
fn failure_without_retry_state_is_terminal() {
    assert!(matches!(on_response(&None, 500, None), Step::Fail(ApiError::UnexpectedStatusCode(500))));
    assert!(matches!(on_response(&None, 404, None), Step::Fail(ApiError::UnexpectedStatusCode(404))));
}

#[test]
fn zero_budget_fails_after_one_attempt() {
    let retry = Some(RetryData::start(&Some(settings(0, 300, 2))));
    let (step, attempts, delays) = run_chain(retry, &[(500, None), (200, None)]);
    assert!(matches!(step, Step::Fail(ApiError::UnexpectedStatusCode(500))));
    assert_eq!(attempts, 1);
    assert!(delays.is_empty());
}

#[test]
fn failures_then_success() {
    let retry = Some(RetryData::start(&None));
    let (step, attempts, delays) = run_chain(retry, &[(500, None), (502, None), (404, None), (200, None)]);
    assert!(matches!(step, Step::Accept));
    assert_eq!(attempts, 4);
    assert_eq!(delays, vec![600, 1200, 2400]);
}

#[test]
fn budget_exhausted_after_max_retries() {
    let retry = Some(RetryData::start(&Some(settings(2, 10, 3))));
    let (step, attempts, delays) = run_chain(retry, &[(500, None), (500, None), (418, None), (200, None)]);
    assert!(matches!(step, Step::Fail(ApiError::UnexpectedStatusCode(418))));
    assert_eq!(attempts, 3);
    assert_eq!(delays, vec![30, 90]);
}

#[test]
fn success_on_the_last_allowed_retry() {
    let retry = Some(RetryData::start(&Some(settings(2, 10, 3))));
    let (step, attempts, delays) = run_chain(retry, &[(500, None), (500, None), (200, None)]);
    assert!(matches!(step, Step::Accept));
    assert_eq!(attempts, 3);
    assert_eq!(delays, vec![30, 90]);
}

#[test]
fn overflowing_policy_yields_backoff_overflow() {
    let retry = Some(RetryData::start(&Some(settings(10, 1, u64::MAX))));
    let (step, attempts, delays) = run_chain(retry, &[(500, None), (500, None), (200, None)]);
    match step {
        Step::Fail(ApiError::BackoffOverflow(message)) => {
            assert_eq!(message, "exceeded maximum backoff value")
        }
        other => panic!("unexpected step {:?}", other),
    }
    assert_eq!(attempts, 2);
    assert_eq!(delays, vec![u64::MAX]);
}

#[test]
fn throttling_is_terminal_on_the_first_attempt() {
    // 503 twice, then 200: the chain stops at the first 503.
    let retry = Some(RetryData::start(&Some(settings(5, 300, 2))));
    let (step, attempts, delays) = run_chain(retry, &[(503, None), (503, None), (200, None)]);
    assert!(matches!(step, Step::Fail(ApiError::ApiRequestsWait(None))));
    assert_eq!(attempts, 1);
    assert!(delays.is_empty());
}

#[test]
fn other_failures_follow_the_backoff_schedule() {
    // The same sequence with a status that is retried: success on the third
    // attempt after waiting 600 ms and 1200 ms.
    let retry = Some(RetryData::start(&Some(settings(5, 300, 2))));
    let (step, attempts, delays) = run_chain(retry, &[(500, None), (500, None), (200, None)]);
    assert!(matches!(step, Step::Accept));
    assert_eq!(attempts, 3);
    assert_eq!(delays, vec![600, 1200]);
}

#[test]
fn retry_state_advances_by_one() {
    let retry = Some(RetryData { settings: settings(5, 300, 2), retry_count: 3 });
    match on_response(&retry, 500, None) {
        Step::Retry { delay_ms, next } => {
            assert_eq!(delay_ms, 4800);
            assert_eq!(next.retry_count, 4);
            assert_eq!(next.settings, settings(5, 300, 2));
        }
        other => panic!("unexpected step {:?}", other),
    }
    let spent = Some(RetryData { settings: settings(5, 300, 2), retry_count: 5 });
    assert!(matches!(on_response(&spent, 500, None), Step::Fail(ApiError::UnexpectedStatusCode(500))));
}

#[test]
fn streaming_body_is_not_reissuable() {
    let chunks: Vec<Result<&'static str, std::io::Error>> = vec![Ok("payload")];
    let body = reqwest::Body::wrap_stream(futures_util::stream::iter(chunks));
    let builder = reqwest::Client::new().post("http://127.0.0.1:9/upload").body(body);
    assert!(matches!(reissue(&builder), Err(ApiError::RequestBuilderClone())));
}

#[test]
fn plain_request_is_reissuable() {
    let builder = reqwest::Client::new().get("http://127.0.0.1:9/charges").header("X-API-KEY", "k");
    assert!(reissue(&builder).is_ok());
    assert!(reissue(&builder).is_ok());
}

fn response(status: u16, retry_after: Option<&str>) -> reqwest::Response {
    let mut b = http::Response::builder().status(status);
    if let Some(v) = retry_after {
        b = b.header("retry-after", v);
    }
    reqwest::Response::from(b.body("").unwrap())
}

#[test]
fn response_headers_are_read() {
    let retry = Some(RetryData::start(&None));
    assert!(matches!(
        classify_response(&retry, &response(429, Some("120"))),
        Step::Fail(ApiError::ApiRequestsWait(Some(120)))
    ));
    assert!(matches!(
        classify_response(&retry, &response(503, None)),
        Step::Fail(ApiError::ApiRequestsWait(None))
    ));
    assert!(matches!(
        classify_response(&retry, &response(429, Some("later"))),
        Step::Fail(ApiError::ApiRequestsWait(None))
    ));
    assert!(matches!(classify_response(&retry, &response(200, None)), Step::Accept));
    assert!(matches!(
        classify_response(&retry, &response(500, None)),
        Step::Retry { delay_ms: 600, .. }
    ));
    assert!(matches!(
        classify_response(&None, &response(404, None)),
        Step::Fail(ApiError::UnexpectedStatusCode(404))
    ));
}
