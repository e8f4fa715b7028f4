//! A whole call chain, as the repeated application of [`decide`] to the
//! responses the server gives, and the laws it obeys.
//!
//! A reply is a status and the `Retry-After` value sent with it. Each reply
//! costs one network attempt; the chain stops at the first decision that is
//! not a retry.

use vstd::arithmetic::power::pow;
use vstd::prelude::*;

use crate::backoff::{backoff_delay, lemma_pow_nonnegative};
use crate::error::ErrorKind;
use crate::executor::{decide, is_plain_failure, is_success, Decision};
use crate::settings::{RetryData, RetrySettings};

verus! {

pub type Reply = (u16, Option<Seq<u8>>);

/// The final decision of a chain that starts in `retry`, or `None` when the
/// replies run out while it is still retrying.
pub open spec fn chain_end(retry: Option<RetryData>, replies: Seq<Reply>) -> Option<Decision>
    decreases replies.len(),
{
    if replies.len() == 0 {
        None
    } else {
        match decide(retry, replies[0].0, replies[0].1) {
            Decision::Retry { delay_ms, next } => chain_end(Some(next), replies.drop_first()),
            d => Some(d),
        }
    }
}

/// The number of requests the chain sends.
pub open spec fn chain_attempts(retry: Option<RetryData>, replies: Seq<Reply>) -> nat
    decreases replies.len(),
{
    if replies.len() == 0 {
        0
    } else {
        match decide(retry, replies[0].0, replies[0].1) {
            Decision::Retry { delay_ms, next } => 1 + chain_attempts(Some(next), replies.drop_first()),
            _ => 1,
        }
    }
}

/// The delays the chain waits, in order.
pub open spec fn chain_delays(retry: Option<RetryData>, replies: Seq<Reply>) -> Seq<u64>
    decreases replies.len(),
{
    if replies.len() == 0 {
        Seq::empty()
    } else {
        match decide(retry, replies[0].0, replies[0].1) {
            Decision::Retry { delay_ms, next } => seq![delay_ms] + chain_delays(
                Some(next),
                replies.drop_first(),
            ),
            _ => Seq::empty(),
        }
    }
}

/// The delays before retries `from + 1` to `from + n`.
pub open spec fn scheduled_delays(s: RetrySettings, from: nat, n: nat) -> Seq<u64> {
    Seq::new(n, |i: int| backoff_delay(s, (from + i + 1) as nat)->Some_0)
}

pub open spec fn fits_delays(s: RetrySettings, from: nat, n: nat) -> bool {
    forall|k: nat| from < k <= from + n ==> #[trigger] backoff_delay(s, k) is Some
}

pub open spec fn plain_failures(replies: Seq<Reply>, n: nat) -> bool {
    forall|i: int| 0 <= i < n ==> is_plain_failure(#[trigger] replies[i].0)
}

/// `n` plain failures in a chain with retries left for each of them lead to
/// `n` retries with the scheduled delays.
proof fn lemma_failures_are_retried(s: RetrySettings, from: nat, n: nat, replies: Seq<Reply>)
    requires
        from + n <= s.max_retries,
        n <= replies.len(),
        plain_failures(replies, n),
        fits_delays(s, from, n),
    ensures
        chain_end(Some(RetryData { settings: s, retry_count: from as u32 }), replies) == chain_end(
            Some(RetryData { settings: s, retry_count: (from + n) as u32 }),
            replies.skip(n as int),
        ),
        chain_attempts(Some(RetryData { settings: s, retry_count: from as u32 }), replies) == n
            + chain_attempts(
            Some(RetryData { settings: s, retry_count: (from + n) as u32 }),
            replies.skip(n as int),
        ),
        chain_delays(Some(RetryData { settings: s, retry_count: from as u32 }), replies)
            == scheduled_delays(s, from, n) + chain_delays(
            Some(RetryData { settings: s, retry_count: (from + n) as u32 }),
            replies.skip(n as int),
        ),
    decreases n,
{
    let start = Some(RetryData { settings: s, retry_count: from as u32 });
    let end = Some(RetryData { settings: s, retry_count: (from + n) as u32 });
    if n == 0 {
        assert(replies.skip(0) =~= replies);
        assert(scheduled_delays(s, from, 0) =~= Seq::<u64>::empty());
        assert(seq![] + chain_delays(end, replies) =~= chain_delays(end, replies));
    } else {
        let rest = replies.drop_first();
        assert(is_plain_failure(replies[0].0));
        assert(backoff_delay(s, from + 1) is Some);
        let next = RetryData { settings: s, retry_count: (from + 1) as u32 };
        assert(decide(start, replies[0].0, replies[0].1) == Decision::Retry {
            delay_ms: backoff_delay(s, from + 1)->Some_0,
            next,
        });
        assert(plain_failures(rest, (n - 1) as nat)) by {
            assert forall|i: int| 0 <= i < n - 1 implies is_plain_failure(#[trigger] rest[i].0) by {
                assert(rest[i] == replies[i + 1]);
            }
        }
        assert(fits_delays(s, from + 1, (n - 1) as nat)) by {
            assert forall|k: nat| from + 1 < k <= from + 1 + (n - 1) implies #[trigger] backoff_delay(
                s,
                k,
            ) is Some by {}
        }
        lemma_failures_are_retried(s, from + 1, (n - 1) as nat, rest);
        assert(rest.skip(n - 1) =~= replies.skip(n as int));
        assert(seq![backoff_delay(s, from + 1)->Some_0] + scheduled_delays(s, from + 1, (n - 1) as nat)
            =~= scheduled_delays(s, from, n));
        assert(seq![backoff_delay(s, from + 1)->Some_0] + (scheduled_delays(s, from + 1, (n - 1) as nat)
            + chain_delays(end, replies.skip(n as int))) =~= scheduled_delays(s, from, n)
            + chain_delays(end, replies.skip(n as int)));
    }
}

/// With `max_retries == 0`, a failing status ends the chain after exactly one
/// attempt with `UnexpectedStatus`, whatever the count of retries so far.
pub proof fn law_no_retry_without_budget(s: RetrySettings, count: u32, replies: Seq<Reply>)
    requires
        s.max_retries == 0,
        replies.len() >= 1,
        is_plain_failure(replies[0].0),
    ensures
        chain_end(Some(RetryData { settings: s, retry_count: count }), replies) == Some(
            Decision::Fail(ErrorKind::UnexpectedStatus(replies[0].0)),
        ),
        chain_attempts(Some(RetryData { settings: s, retry_count: count }), replies) == 1,
{
}

/// A chain that has performed `count <= max_retries` retries sends at most
/// `max_retries - count + 1` more requests, whatever the server answers; a
/// fresh chain makes at most `max_retries + 1` attempts.
pub proof fn law_attempts_are_bounded(s: RetrySettings, count: u32, replies: Seq<Reply>)
    requires
        count <= s.max_retries,
    ensures
        chain_attempts(Some(RetryData { settings: s, retry_count: count }), replies) <= s.max_retries
            - count + 1,
    decreases replies.len(),
{
    if replies.len() > 0 {
        let d = decide(Some(RetryData { settings: s, retry_count: count }), replies[0].0, replies[0].1);
        if let Decision::Retry { delay_ms, next } = d {
            law_attempts_are_bounded(s, (count + 1) as u32, replies.drop_first());
        }
    }
}

/// `n <= max_retries` plain failures followed by a success end in that
/// success after exactly `n + 1` attempts, waiting
/// `initial_backoff_ms * backoff_multiplier^k` before retry `k`, provided
/// none of these delays overflows.
pub proof fn law_success_after_failures(s: RetrySettings, n: nat, replies: Seq<Reply>)
    requires
        n <= s.max_retries,
        n < replies.len(),
        plain_failures(replies, n),
        is_success(replies[n as int].0),
        fits_delays(s, 0, n),
    ensures
        chain_end(Some(RetryData { settings: s, retry_count: 0 }), replies) == Some(Decision::Accept),
        chain_attempts(Some(RetryData { settings: s, retry_count: 0 }), replies) == n + 1,
        chain_delays(Some(RetryData { settings: s, retry_count: 0 }), replies).len() == n,
        forall|k: int|
            1 <= k <= n ==> #[trigger] chain_delays(
                Some(RetryData { settings: s, retry_count: 0 }),
                replies,
            )[k - 1] == s.initial_backoff_ms * pow(s.backoff_multiplier as int, k as nat),
{
    lemma_failures_are_retried(s, 0, n, replies);
    let end = Some(RetryData { settings: s, retry_count: n as u32 });
    let rest = replies.skip(n as int);
    assert(rest[0] == replies[n as int]);
    assert(chain_delays(end, rest) =~= Seq::<u64>::empty());
    let delays = chain_delays(Some(RetryData { settings: s, retry_count: 0 }), replies);
    assert(delays =~= scheduled_delays(s, 0, n));
    assert forall|k: int| 1 <= k <= n implies #[trigger] chain_delays(
        Some(RetryData { settings: s, retry_count: 0 }),
        replies,
    )[k - 1] == s.initial_backoff_ms * pow(s.backoff_multiplier as int, k as nat) by {
        assert(backoff_delay(s, k as nat) is Some);
        assert(delays[k - 1] == backoff_delay(s, k as nat)->Some_0);
        lemma_pow_nonnegative(s.backoff_multiplier as nat, k as nat);
    }
}

/// When the delay before retry `n + 1` overflows while those before it do
/// not, `n + 1` plain failures end the chain with `BackoffOverflow` after
/// exactly `n + 1` attempts, instead of a wrapped or saturated delay.
pub proof fn law_overflow_is_reported(s: RetrySettings, n: nat, replies: Seq<Reply>)
    requires
        n < s.max_retries,
        n < replies.len(),
        plain_failures(replies, n + 1),
        fits_delays(s, 0, n),
        backoff_delay(s, n + 1) is None,
    ensures
        chain_end(Some(RetryData { settings: s, retry_count: 0 }), replies) == Some(
            Decision::Fail(ErrorKind::BackoffOverflow),
        ),
        chain_attempts(Some(RetryData { settings: s, retry_count: 0 }), replies) == n + 1,
{
    lemma_failures_are_retried(s, 0, n, replies);
    let rest = replies.skip(n as int);
    assert(rest[0] == replies[n as int]);
}

} // verus!
