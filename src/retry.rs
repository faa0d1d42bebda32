//! Bounded retry with linear backoff for log requests.
use vstd::prelude::*;
use crate::event_indexer::{EventIndexerConfig, EventIndexerError};

verus! {

/// The retry bound and the base unit of the backoff.
#[derive(Clone, Copy, Debug, PartialEq, Eq, Structural)]
pub struct RetryPolicy {
    pub max_retries: u32,
    pub base_delay_ms: u64,
}

/// Delay before retry number `attempt` (counted from 1): `attempt` times the
/// base unit, capped at the largest `u64`.
pub open spec fn retry_delay(attempt: nat, base: u64) -> u64 {
    if attempt * base <= u64::MAX {
        (attempt * base) as u64
    } else {
        u64::MAX
    }
}

/// What a failed request leads to after `retries` earlier retries: the delay
/// before the next one, or `None` once the bound is reached.
pub open spec fn retry_step(retries: u32, policy: RetryPolicy) -> Option<u64> {
    if retries < policy.max_retries {
        Some(retry_delay((retries + 1) as nat, policy.base_delay_ms))
    } else {
        None
    }
}

/// The total delay spent over `n` consecutive failures, starting after
/// `retries` earlier retries; `None` when one of them is not retried.
pub open spec fn failure_run(retries: u32, policy: RetryPolicy, n: nat) -> Option<int>
    decreases n,
{
    if n == 0 {
        Some(0)
    } else {
        match retry_step(retries, policy) {
            None => None,
            Some(d) => match failure_run((retries + 1) as u32, policy, (n - 1) as nat) {
                None => None,
                Some(t) => Some(d + t),
            },
        }
    }
}

/// Sum of the delays of retries `retries + 1` to `retries + n`.
pub open spec fn total_delay(retries: nat, base: u64, n: nat) -> int
    decreases n,
{
    if n == 0 {
        0
    } else {
        retry_delay(retries + 1, base) + total_delay(retries + 1, base, (n - 1) as nat)
    }
}

/// What to do after a failed request.
#[derive(Debug)]
pub enum RetryDecision {
    /// Wait this many milliseconds, then issue the same request again.
    RetryAfter(u64),
    /// Give up: the failure surfaces.
    Fail(EventIndexerError),
}

/// Retry state of one log request.
pub struct FetchRetry {
    retries: u32,
}

impl RetryPolicy {
    /// The bound and base delay of the indexer's configuration.
    pub fn from_config(config: &EventIndexerConfig) -> (r: Self)
        ensures
            r.max_retries == config.max_retries,
            r.base_delay_ms == config.retry_delay_ms,
    {
        RetryPolicy { max_retries: config.max_retries, base_delay_ms: config.retry_delay_ms }
    }
}

impl FetchRetry {
    /// Retries made so far.
    pub closed spec fn spec_retries(&self) -> u32 {
        self.retries
    }

    /// State of a request not yet retried.
    pub fn new() -> (r: Self)
        ensures
            r.spec_retries() == 0,
    {
        FetchRetry { retries: 0 }
    }

    pub fn retries(&self) -> (r: u32)
        ensures
            r == self.spec_retries(),
    {
        self.retries
    }

    /// Number of requests issued so far, the first one included.
    pub fn attempts(&self) -> (r: u64)
        ensures
            r == self.spec_retries() + 1,
    {
        self.retries as u64 + 1
    }

    /// Decides on a failed request: below the bound, count one more retry
    /// and wait `retries × base` milliseconds; at the bound, surface the
    /// failure as a provider error carrying `message`.
    pub fn on_failure(&mut self, policy: &RetryPolicy, message: String) -> (r: RetryDecision)
        ensures
            match retry_step(old(self).spec_retries(), *policy) {
                Some(d) => r == RetryDecision::RetryAfter(d) && final(self).spec_retries()
                    == old(self).spec_retries() + 1,
                None => final(self).spec_retries() == old(self).spec_retries() && (match r {
                    RetryDecision::Fail(EventIndexerError::ProviderError(m)) => m@ == message@,
                    _ => false,
                }),
            },
    {
        if self.retries < policy.max_retries {
            self.retries = self.retries + 1;
            let attempt = self.retries as u64;
            let delay = match attempt.checked_mul(policy.base_delay_ms) {
                Some(d) => d,
                None => u64::MAX,
            };
            RetryDecision::RetryAfter(delay)
        } else {
            RetryDecision::Fail(EventIndexerError::ProviderError(message))
        }
    }
}

/// Up to the bound, consecutive failures are all retried, the n-th after a
/// delay of n base units, so a request that then succeeds is issued n + 1
/// times; one failure more than the bound surfaces instead.
pub proof fn lemma_bounded_retries(policy: RetryPolicy, n: nat)
    ensures
        n <= policy.max_retries ==> failure_run(0, policy, n) == Some(
            total_delay(0, policy.base_delay_ms, n),
        ),
        failure_run(0, policy, (policy.max_retries + 1) as nat) is None,
{
    lemma_failure_run_from(0, policy, n);
    lemma_failure_run_from(0, policy, (policy.max_retries + 1) as nat);
}

/// `failure_run` from any number of earlier retries.
pub proof fn lemma_failure_run_from(retries: u32, policy: RetryPolicy, n: nat)
    ensures
        retries + n <= policy.max_retries ==> failure_run(retries, policy, n) == Some(
            total_delay(retries as nat, policy.base_delay_ms, n),
        ),
        n > 0 && retries + n > policy.max_retries ==> failure_run(retries, policy, n) is None,
    decreases n,
{
    if n > 0 && retries < policy.max_retries {
        lemma_failure_run_from((retries + 1) as u32, policy, (n - 1) as nat);
    }
}

/// Without saturation, the delays grow linearly: retries `r + 1` to `r + n`
/// wait `base × n × (2r + n + 1) / 2` milliseconds in all; from no earlier
/// retry, `base × n × (n + 1) / 2`.
pub proof fn lemma_total_delay_linear(retries: nat, base: u64, n: nat)
    requires
        (retries + n) * base <= u64::MAX,
    ensures
        2 * total_delay(retries, base, n) == base * n * (2 * retries + n + 1),
    decreases n,
{
    if n > 0 {
        assert((retries + 1) * base <= (retries + n) * base) by (nonlinear_arith)
            requires
                n >= 1,
        ;
        lemma_total_delay_linear(retries + 1, base, (n - 1) as nat);
        let t = total_delay(retries + 1, base, (n - 1) as nat);
        assert(retry_delay(retries + 1, base) == (retries + 1) * base);
        assert(total_delay(retries, base, n) == (retries + 1) * base + t);
        assert(2 * ((retries + 1) * base) + 2 * t == base * n * (2 * retries + n + 1))
            by (nonlinear_arith)
            requires
                2 * t == base * (n - 1) * (2 * (retries + 1) + (n - 1) + 1),
                n >= 1,
        ;
    } else {
        assert(base * n * (2 * retries + n + 1) == 0) by (nonlinear_arith)
            requires
                n == 0,
        ;
    }
}

} // verus!
