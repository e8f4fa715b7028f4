//! Retry policy and the per-call-chain bookkeeping derived from it.

use vstd::prelude::*;

verus! {

/// Exponential backoff configuration.
///
/// `max_retries` is the number of retries after the first attempt (0 turns
/// retrying off); the delay before retry `k` is
/// `initial_backoff_ms * backoff_multiplier^k` milliseconds.
#[derive(Debug, Clone, Copy, PartialEq, Eq, Structural)]
pub struct RetrySettings {
    pub max_retries: u32,
    pub initial_backoff_ms: u64,
    pub backoff_multiplier: u64,
}

/// The policy used when a caller supplies none.
pub open spec fn default_settings() -> RetrySettings {
    RetrySettings { max_retries: 5, initial_backoff_ms: 300, backoff_multiplier: 2 }
}

impl Default for RetrySettings {
    /// 300 ms initial delay, doubled on each retry, at most 5 retries.
    fn default() -> (r: RetrySettings)
        ensures
            r == default_settings(),
    {
        RetrySettings { max_retries: 5, initial_backoff_ms: 300, backoff_multiplier: 2 }
    }
}

/// Bookkeeping of one call chain: the policy in effect and the number of
/// retries already performed.
#[derive(Debug, Clone, Copy, PartialEq, Eq, Structural)]
pub struct RetryData {
    pub settings: RetrySettings,
    pub retry_count: u32,
}

/// The policy in effect for a caller's optional choice.
pub open spec fn effective_settings(settings: Option<RetrySettings>) -> RetrySettings {
    match settings {
        Some(s) => s,
        None => default_settings(),
    }
}

impl RetryData {
    /// The state at the start of a call chain: no retry performed yet, under
    /// the given policy or the default one.
    pub fn start(settings: &Option<RetrySettings>) -> (r: RetryData)
        ensures
            r.retry_count == 0,
            r.settings == effective_settings(*settings),
    {
        let settings = match settings {
            Some(s) => *s,
            None => RetrySettings::default(),
        };
        RetryData { settings, retry_count: 0 }
    }
}

} // verus!
