//! Retry policy for transfer operations: exponential backoff adapted to the
//! error, attempt bookkeeping, the decision after a failure, and a circuit
//! breaker.
use vstd::prelude::*;

use crate::clock::{elapsed_between, elapsed_ms, now_ms, subsec_nanos};
use crate::bignum::{
    capped_quotient,
    lemma_capped_quotient_monotone,
    lemma_pow_add,
    lemma_pow_base_monotone,
    lemma_pow_positive,
    pow_nat,
    scaled_floor_capped,
};
use crate::transfer::types::{spec_is_retryable, TransferError, TransferSettings};

verus! {

/// Retry policy.  Durations are milliseconds; the multiplier and the jitter
/// factor are given in thousandths.
#[derive(Debug, Clone, Copy, PartialEq, Eq, Structural)]
pub struct RetryStrategy {
    pub max_attempts: u32,
    pub initial_delay_ms: u64,
    pub max_delay_ms: u64,
    pub backoff_multiplier_milli: u32,
    pub jitter_factor_milli: u32,
    pub adaptive_backoff: bool,
}

impl Default for RetryStrategy {
    fn default() -> (r: Self)
        ensures
            r == (RetryStrategy {
                max_attempts: 3,
                initial_delay_ms: 1000,
                max_delay_ms: 60000,
                backoff_multiplier_milli: 2000,
                jitter_factor_milli: 100,
                adaptive_backoff: true,
            }),
    {
        RetryStrategy {
            max_attempts: 3,
            initial_delay_ms: 1000,
            max_delay_ms: 60000,
            backoff_multiplier_milli: 2000,
            jitter_factor_milli: 100,
            adaptive_backoff: true,
        }
    }
}

/// Delay adapted to the error: network errors wait half again as long,
/// timeouts twice, lost connections three times, blocking operations half
/// (at least 100 ms).
pub open spec fn adapt_to_error(base: nat, error: Option<TransferError>) -> nat {
    match error {
        Some(TransferError::TemporaryNetwork(_)) => base * 3 / 2,
        Some(TransferError::Timeout(_)) => base * 2,
        Some(TransferError::ConnectionLost) => base * 3,
        Some(TransferError::WouldBlock) => if base / 2 > 100 { base / 2 } else { 100 },
        _ => base,
    }
}

/// The exponential delay for `attempt`: the initial delay multiplied
/// `attempt` times by the multiplier (in thousandths), rounded down once at
/// the end and held at `u64::MAX` milliseconds at most.
pub open spec fn exponential_delay(s: RetryStrategy, attempt: u32) -> nat {
    capped_quotient(
        (s.initial_delay_ms as nat) * pow_nat(s.backoff_multiplier_milli as nat, attempt as nat),
        pow_nat(1000, attempt as nat),
        u64::MAX as nat,
    )
}

/// The delay before jitter.
pub open spec fn base_delay(s: RetryStrategy, attempt: u32, error: Option<TransferError>) -> nat {
    let exp = exponential_delay(s, attempt);
    if s.adaptive_backoff {
        adapt_to_error(exp, error)
    } else {
        exp
    }
}

/// Jitter for a base delay: the base times the jitter factor times the
/// fraction `sample / 1 000 000`, rounded down.
pub open spec fn jitter_for(s: RetryStrategy, base: nat, sample: nat) -> nat {
    if s.jitter_factor_milli > 0 {
        base * (s.jitter_factor_milli as nat) * sample / 1_000_000_000
    } else {
        0
    }
}

/// The delay for `attempt` after `error`, with jitter drawn from `sample`
/// (below 1 000 000), capped at the maximum delay.
pub open spec fn retry_delay_for(s: RetryStrategy, attempt: u32, error: Option<TransferError>, sample: nat) -> nat {
    let b = base_delay(s, attempt, error);
    let d = b + jitter_for(s, b, sample);
    if d < s.max_delay_ms {
        d
    } else {
        s.max_delay_ms as nat
    }
}

/// The error a borrowed optional error refers to.
pub open spec fn owned_error(error: Option<&TransferError>) -> Option<TransferError> {
    match error {
        Some(e) => Some(*e),
        None => None,
    }
}

impl RetryStrategy {
    /// The policy for the transfer settings: their attempt count and retry
    /// delay, a 60 s cap, doubling, 10% jitter, adaptive backoff.
    pub fn from_settings(settings: &TransferSettings) -> (r: Self)
        ensures
            r == (RetryStrategy {
                max_attempts: settings.max_retry_attempts,
                initial_delay_ms: settings.retry_delay_ms,
                max_delay_ms: 60000,
                backoff_multiplier_milli: 2000,
                jitter_factor_milli: 100,
                adaptive_backoff: true,
            }),
    {
        RetryStrategy {
            max_attempts: settings.max_retry_attempts,
            initial_delay_ms: settings.retry_delay(),
            max_delay_ms: 60000,
            backoff_multiplier_milli: 2000,
            jitter_factor_milli: 100,
            adaptive_backoff: true,
        }
    }

    /// The delay in milliseconds for `attempt` after `error`, with jitter
    /// drawn from `sample`.
    pub fn calculate_delay_with_sample(&self, attempt: u32, error: Option<&TransferError>, sample: u32) -> (r: u64)
        requires
            sample < 1_000_000,
        ensures
            r == retry_delay_for(
                *self,
                attempt,
                owned_error(error),
                sample as nat,
            ),
            r <= self.max_delay_ms,
    {
        let ghost err = match error {
            Some(e) => Some(*e),
            None => None,
        };
        let max = self.max_delay_ms;
        let exp: u128 = scaled_floor_capped(
            self.initial_delay_ms as u128,
            1,
            self.backoff_multiplier_milli as u64,
            attempt,
            u64::MAX,
        ) as u128;
        proof {
            assert((self.initial_delay_ms as nat) * pow_nat(self.backoff_multiplier_milli as nat, attempt as nat)
                == (self.initial_delay_ms as u128 as nat) * pow_nat(self.backoff_multiplier_milli as u64 as nat, attempt as nat));
            assert(1 * pow_nat(1000, attempt as nat) == pow_nat(1000, attempt as nat));
            assert(exp == exponential_delay(*self, attempt));
        }
        let base: u128 = if self.adaptive_backoff {
            match error {
                Some(TransferError::TemporaryNetwork(_)) => exp * 3 / 2,
                Some(TransferError::Timeout(_)) => exp * 2,
                Some(TransferError::ConnectionLost) => exp * 3,
                Some(TransferError::WouldBlock) => if exp / 2 > 100 { exp / 2 } else { 100 },
                _ => exp,
            }
        } else {
            exp
        };
        assert(base <= 3 * (2 * (u64::MAX as nat) + 1) + 100);
        assert(base * (self.jitter_factor_milli as u128) <= (3 * (2 * (u64::MAX as nat) + 1) + 100) * (u32::MAX as nat)) by (nonlinear_arith)
            requires
                base <= 3 * (2 * (u64::MAX as nat) + 1) + 100,
                self.jitter_factor_milli <= u32::MAX,
        ;
        let jitter: u128 = if self.jitter_factor_milli > 0 {
            assert(base * (self.jitter_factor_milli as u128) * (sample as u128) <= (3 * (2 * (u64::MAX as nat) + 1) + 100) * (u32::MAX as nat) * 1_000_000) by (nonlinear_arith)
                requires
                    base <= 3 * (2 * (u64::MAX as nat) + 1) + 100,
                    self.jitter_factor_milli <= u32::MAX,
                    sample < 1_000_000,
            ;
            base * (self.jitter_factor_milli as u128) * (sample as u128) / 1_000_000_000
        } else {
            0
        };
        assert(jitter <= base * (self.jitter_factor_milli as u128)) by (nonlinear_arith)
            requires
                jitter == 0 || jitter == base * (self.jitter_factor_milli as u128) * (sample as u128) / 1_000_000_000,
                sample < 1_000_000,
        ;
        let total: u128 = base + jitter;
        if total < max as u128 {
            total as u64
        } else {
            max
        }
    }

    /// The delay in milliseconds for `attempt` after `error`, with jitter
    /// drawn from the clock.
    pub fn calculate_delay(&self, attempt: u32, error: Option<&TransferError>) -> (r: u64)
        ensures
            r <= self.max_delay_ms,
            exists|sample: nat|
                sample < 1_000_000 && r == #[trigger] retry_delay_for(
                    *self,
                    attempt,
                    owned_error(error),
                    sample,
                ),
    {
        let sample = subsec_nanos() % 1_000_000;
        self.calculate_delay_with_sample(attempt, error, sample)
    }
}

/// Bookkeeping of a retry sequence.  Times are milliseconds on the clock of
/// [`crate::clock`].
#[derive(Debug, Clone)]
pub struct RetryContext {
    /// Attempts made so far, counted from 0.
    pub attempt: u32,
    pub max_attempts: u32,
    pub start_time_ms: u64,
    pub last_error: Option<TransferError>,
    pub total_retry_time_ms: u64,
    /// The next retry follows a blocking operation early in the sequence.
    pub is_fast_retry: bool,
}

/// A blocking operation in one of the first two attempts is retried fast.
pub open spec fn fast_retry_after(error: TransferError, attempt: u32) -> bool {
    error is WouldBlock && attempt < 2
}

/// A sequence with no attempt made, allowing `max_attempts`, started at
/// `now`.
pub open spec fn fresh_context(max_attempts: u32, now: u64) -> RetryContext {
    RetryContext {
        attempt: 0,
        max_attempts,
        start_time_ms: now,
        last_error: None,
        total_retry_time_ms: 0,
        is_fast_retry: false,
    }
}

/// The sequence `c` moved to its next attempt after `error`.
pub open spec fn attempted(c: RetryContext, error: TransferError) -> RetryContext {
    RetryContext {
        attempt: (c.attempt + 1) as u32,
        last_error: Some(error),
        is_fast_retry: fast_retry_after(error, (c.attempt + 1) as u32),
        ..c
    }
}

/// The sequence `c` moved on once after each error of `errors`, in order.
pub open spec fn attempted_all(c: RetryContext, errors: Seq<TransferError>) -> RetryContext
    decreases errors.len(),
{
    if errors.len() == 0 {
        c
    } else {
        attempted(attempted_all(c, errors.drop_last()), errors.last())
    }
}

impl RetryContext {
    /// A sequence with no attempt made, started now.
    pub fn new(max_attempts: u32) -> (r: Self)
        ensures
            exists|now: u64| r == #[trigger] fresh_context(max_attempts, now),
    {
        Self::new_at(max_attempts, now_ms())
    }

    /// A sequence with no attempt made, started at `now`.
    pub fn new_at(max_attempts: u32, now: u64) -> (r: Self)
        ensures
            r == fresh_context(max_attempts, now),
    {
        RetryContext {
            attempt: 0,
            max_attempts,
            start_time_ms: now,
            last_error: None,
            total_retry_time_ms: 0,
            is_fast_retry: false,
        }
    }

    /// Whether another attempt is allowed.
    pub fn can_retry(&self) -> (r: bool)
        ensures
            r == (self.attempt < self.max_attempts),
    {
        self.attempt < self.max_attempts
    }

    /// Whether the current attempt is the last one allowed.
    pub fn is_last_attempt(&self) -> (r: bool)
        requires
            self.max_attempts > 0,
        ensures
            r == (self.attempt == self.max_attempts - 1),
    {
        self.attempt == self.max_attempts - 1
    }

    /// Moves to the next attempt after `error`.
    pub fn next_attempt(&mut self, error: TransferError)
        requires
            old(self).attempt < u32::MAX,
        ensures
            *final(self) == attempted(*old(self), error),
    {
        let fast = self.should_fast_retry_after(&error, self.attempt + 1);
        self.last_error = Some(error);
        self.attempt = self.attempt + 1;
        self.is_fast_retry = fast;
    }

    fn should_fast_retry_after(&self, error: &TransferError, attempt: u32) -> (r: bool)
        ensures
            r == fast_retry_after(*error, attempt),
    {
        matches!(error, TransferError::WouldBlock) && attempt < 2
    }

    /// Whether the current attempt, after `error`, is a fast retry.
    pub fn should_fast_retry(&self, error: &TransferError) -> (r: bool)
        ensures
            r == fast_retry_after(*error, self.attempt),
    {
        self.should_fast_retry_after(error, self.attempt)
    }

    /// Milliseconds since the sequence started, at `now`.
    pub fn elapsed_at(&self, now: u64) -> (r: u64)
        ensures
            r == elapsed_between(self.start_time_ms, now),
    {
        elapsed_ms(self.start_time_ms, now)
    }

    /// Milliseconds since the sequence started, measured now.
    pub fn elapsed(&self) -> (r: u64)
        ensures
            exists|now: u64| r == #[trigger] elapsed_between(self.start_time_ms, now),
    {
        self.elapsed_at(now_ms())
    }

    /// Adds `duration_ms` to the time spent retrying.
    pub fn update_retry_time(&mut self, duration_ms: u64)
        requires
            old(self).total_retry_time_ms + duration_ms <= u64::MAX,
        ensures
            final(self).total_retry_time_ms == old(self).total_retry_time_ms + duration_ms,
            final(self).attempt == old(self).attempt,
            final(self).max_attempts == old(self).max_attempts,
            final(self).start_time_ms == old(self).start_time_ms,
            final(self).last_error == old(self).last_error,
            final(self).is_fast_retry == old(self).is_fast_retry,
    {
        self.total_retry_time_ms = self.total_retry_time_ms + duration_ms;
    }
}

/// The delay actually waited: at most 100 ms for a fast retry.
pub open spec fn fast_capped(fast: bool, delay: nat) -> nat {
    if fast && delay > 100 { 100 } else { delay }
}

/// Outcome of an operation run under a retry policy.
#[derive(Debug, Clone)]
pub enum RetryResult<T> {
    Success(T),
    Failed { last_error: TransferError, total_attempts: u32, total_time_ms: u64 },
    Cancelled,
}

/// What to do after a failed attempt.
#[derive(Debug, Clone)]
pub enum RetryStep {
    /// Stop and report the failure.
    GiveUp { last_error: TransferError, total_attempts: u32, total_time_ms: u64 },
    /// Wait this many milliseconds, then run the next attempt.
    Wait(u64),
}

/// Runs operations under a retry policy.  The waiting and the operation
/// itself happen outside; this decides after each failure.
pub struct RetryExecutor {
    pub strategy: RetryStrategy,
}

impl RetryExecutor {
    /// An executor with the given policy.
    pub fn new(strategy: RetryStrategy) -> (r: Self)
        ensures
            r.strategy == strategy,
    {
        RetryExecutor { strategy }
    }

    /// The decision after attempt `context.attempt` failed with `error`,
    /// the attempt having lasted `attempt_ms`, at `now`, with jitter drawn
    /// from `sample`.  A non-retryable error, or an exhausted attempt budget,
    /// gives up; otherwise the context moves to the next attempt and the
    /// policy's delay is waited (at most 100 ms for a fast retry).
    pub fn after_failure(
        &self,
        context: &mut RetryContext,
        error: TransferError,
        attempt_ms: u64,
        now: u64,
        sample: u32,
    ) -> (r: RetryStep)
        requires
            old(context).attempt < u32::MAX,
            old(context).total_retry_time_ms + attempt_ms <= u64::MAX,
            sample < 1_000_000,
        ensures
            (!spec_is_retryable(error) || old(context).attempt >= old(context).max_attempts) ==> (
            r matches RetryStep::GiveUp { last_error, total_attempts, total_time_ms }
                && last_error == error
                && total_attempts == old(context).attempt + 1
                && total_time_ms == elapsed_between(old(context).start_time_ms, now)),
            (!spec_is_retryable(error) || old(context).attempt >= old(context).max_attempts)
                ==> *final(context) == *old(context),
            (spec_is_retryable(error) && old(context).attempt < old(context).max_attempts) ==> {
                &&& final(context).attempt == old(context).attempt + 1
                &&& final(context).last_error == Some(error)
                &&& final(context).total_retry_time_ms == old(context).total_retry_time_ms + attempt_ms
                &&& final(context).max_attempts == old(context).max_attempts
                &&& final(context).start_time_ms == old(context).start_time_ms
                &&& final(context).is_fast_retry == fast_retry_after(error, final(context).attempt)
            },
            (spec_is_retryable(error) && old(context).attempt < old(context).max_attempts) ==> (
            r matches RetryStep::Wait(d) && d == fast_capped(
                final(context).is_fast_retry,
                retry_delay_for(self.strategy, final(context).attempt, Some(error), sample as nat),
            )),
    {
        if !error.is_retryable() || !context.can_retry() {
            let total_time_ms = context.elapsed_at(now);
            return RetryStep::GiveUp { last_error: error, total_attempts: context.attempt + 1, total_time_ms };
        }
        context.next_attempt(error);
        context.update_retry_time(attempt_ms);
        let delay = self.strategy.calculate_delay_with_sample(context.attempt, context.last_error.as_ref(), sample);
        let actual = if context.is_fast_retry {
            if delay < 100 { delay } else { 100 }
        } else {
            delay
        };
        RetryStep::Wait(actual)
    }

    /// Statistics of the sequence `context` at `now`.
    pub fn get_stats_at(&self, context: &RetryContext, now: u64) -> (r: RetryStats)
        requires
            context.attempt < u32::MAX,
        ensures
            r == stats_at(*context, now),
    {
        RetryStats {
            total_attempts: context.attempt + 1,
            max_attempts: context.max_attempts,
            elapsed_time_ms: context.elapsed_at(now),
            total_retry_time_ms: context.total_retry_time_ms,
            last_error: match &context.last_error {
                Some(e) => Some(e.clone()),
                None => None,
            },
            success_rate_permille: Some(1000 / (context.attempt + 1)),
        }
    }

    /// Statistics of the sequence `context`, measured now.
    pub fn get_stats(&self, context: &RetryContext) -> (r: RetryStats)
        requires
            context.attempt < u32::MAX,
        ensures
            exists|now: u64| r == #[trigger] stats_at(*context, now),
    {
        self.get_stats_at(context, now_ms())
    }
}

/// Statistics of a retry sequence.  Times are milliseconds; the success
/// rate, one in the number of attempts, is in thousandths, rounded down.
#[derive(Debug, Clone)]
pub struct RetryStats {
    pub total_attempts: u32,
    pub max_attempts: u32,
    pub elapsed_time_ms: u64,
    pub total_retry_time_ms: u64,
    pub last_error: Option<TransferError>,
    pub success_rate_permille: Option<u32>,
}

/// Statistics of the sequence `c` at `now`: the attempts counting the
/// current one, the time since the start, and a success rate of one in the
/// number of attempts.
pub open spec fn stats_at(c: RetryContext, now: u64) -> RetryStats {
    RetryStats {
        total_attempts: (c.attempt + 1) as u32,
        max_attempts: c.max_attempts,
        elapsed_time_ms: elapsed_between(c.start_time_ms, now),
        total_retry_time_ms: c.total_retry_time_ms,
        last_error: c.last_error,
        success_rate_permille: Some((1000int / (c.attempt + 1)) as u32),
    }
}

/// State of a circuit breaker.
#[derive(Debug, Clone, Copy, PartialEq, Eq, Structural)]
pub enum CircuitBreakerState {
    /// Normal operation.
    Closed,
    /// Failing: operations are refused.
    Open,
    /// Testing whether the service recovered.
    HalfOpen,
}

/// Refuses operations after repeated failures until a recovery time passed.
/// Times are milliseconds on the clock of [`crate::clock`].
pub struct CircuitBreaker {
    pub failure_threshold: usize,
    pub recovery_timeout_ms: u64,
    pub state: CircuitBreakerState,
    pub failure_count: usize,
    pub last_failure_time_ms: Option<u64>,
}

/// Breaker state after a failure at `now`.
pub open spec fn breaker_after_failure(b: CircuitBreaker, now: u64) -> CircuitBreaker {
    CircuitBreaker {
        failure_count: (b.failure_count + 1) as usize,
        last_failure_time_ms: Some(now),
        state: if b.failure_count + 1 >= b.failure_threshold { CircuitBreakerState::Open } else { b.state },
        ..b
    }
}

/// An operation may run at `now`: always when closed or half open; when
/// open, only once the recovery time has passed since the last failure.
pub open spec fn breaker_allows(b: CircuitBreaker, now: u64) -> bool {
    b.state != CircuitBreakerState::Open || match b.last_failure_time_ms {
        Some(t) => elapsed_between(t, now) > b.recovery_timeout_ms,
        None => false,
    }
}

/// Breaker state after asking for an operation at `now`: an open breaker
/// that lets it through becomes half open.
pub open spec fn breaker_after_ask(b: CircuitBreaker, now: u64) -> CircuitBreaker {
    if b.state == CircuitBreakerState::Open && breaker_allows(b, now) {
        CircuitBreaker { state: CircuitBreakerState::HalfOpen, ..b }
    } else {
        b
    }
}

/// Breaker state after `n` failures at `now`.
pub open spec fn breaker_after_failures(b: CircuitBreaker, n: nat, now: u64) -> CircuitBreaker
    decreases n,
{
    if n == 0 {
        b
    } else {
        breaker_after_failure(breaker_after_failures(b, (n - 1) as nat, now), now)
    }
}

impl CircuitBreaker {
    /// A closed breaker with no failure.
    pub fn new(failure_threshold: usize, recovery_timeout_ms: u64) -> (r: Self)
        ensures
            r == (CircuitBreaker {
                failure_threshold,
                recovery_timeout_ms,
                state: CircuitBreakerState::Closed,
                failure_count: 0,
                last_failure_time_ms: None,
            }),
    {
        CircuitBreaker {
            failure_threshold,
            recovery_timeout_ms,
            state: CircuitBreakerState::Closed,
            failure_count: 0,
            last_failure_time_ms: None,
        }
    }

    /// Whether an operation may run at `now`: always when closed or half
    /// open; when open, only once the recovery time has passed since the last
    /// failure, which moves the breaker to half open.
    pub fn allow_operation_at(&mut self, now: u64) -> (r: bool)
        ensures
            r == breaker_allows(*old(self), now),
            *final(self) == breaker_after_ask(*old(self), now),
    {
        match self.state {
            CircuitBreakerState::Closed => true,
            CircuitBreakerState::Open => {
                if let Some(last) = self.last_failure_time_ms {
                    if elapsed_ms(last, now) > self.recovery_timeout_ms {
                        self.state = CircuitBreakerState::HalfOpen;
                        return true;
                    }
                }
                false
            },
            CircuitBreakerState::HalfOpen => true,
        }
    }

    /// Whether an operation may run now.
    pub fn allow_operation(&mut self) -> (r: bool)
        ensures
            exists|now: u64|
                r == #[trigger] breaker_allows(*old(self), now) && *final(self) == breaker_after_ask(*old(self), now),
    {
        self.allow_operation_at(now_ms())
    }

    /// A success closes the breaker and clears the failure count.
    pub fn record_success(&mut self)
        ensures
            *final(self) == (CircuitBreaker {
                failure_count: 0,
                state: CircuitBreakerState::Closed,
                ..*old(self)
            }),
    {
        self.failure_count = 0;
        self.state = CircuitBreakerState::Closed;
    }

    /// A failure at `now` is counted; reaching the threshold opens the
    /// breaker.
    pub fn record_failure_at(&mut self, now: u64)
        requires
            old(self).failure_count < usize::MAX,
        ensures
            *final(self) == breaker_after_failure(*old(self), now),
    {
        self.failure_count = self.failure_count + 1;
        self.last_failure_time_ms = Some(now);
        if self.failure_count >= self.failure_threshold {
            self.state = CircuitBreakerState::Open;
        }
    }

    /// A failure now is counted; reaching the threshold opens the breaker.
    pub fn record_failure(&mut self)
        requires
            old(self).failure_count < usize::MAX,
        ensures
            exists|now: u64| *final(self) == #[trigger] breaker_after_failure(*old(self), now),
    {
        self.record_failure_at(now_ms());
    }

    /// The current state.
    pub fn get_state(&self) -> (r: CircuitBreakerState)
        ensures
            r == self.state,
    {
        self.state
    }

    /// The number of failures since the last success or reset.
    pub fn get_failure_count(&self) -> (r: usize)
        ensures
            r == self.failure_count,
    {
        self.failure_count
    }

    /// Back to closed with no failure.
    pub fn reset(&mut self)
        ensures
            *final(self) == (CircuitBreaker {
                failure_count: 0,
                last_failure_time_ms: None,
                state: CircuitBreakerState::Closed,
                ..*old(self)
            }),
    {
        self.failure_count = 0;
        self.last_failure_time_ms = None;
        self.state = CircuitBreakerState::Closed;
    }
}

proof fn lemma_breaker_keeps_threshold(b: CircuitBreaker, n: nat, now: u64)
    ensures
        breaker_after_failures(b, n, now).failure_threshold == b.failure_threshold,
    decreases n,
{
    if n > 0 {
        lemma_breaker_keeps_threshold(b, (n - 1) as nat, now);
    }
}

/// From a closed breaker with no failure, `n` failures open it exactly when
/// `n` reaches the threshold, and the count is `n`.
pub proof fn law_breaker_opens_at_threshold(threshold: usize, recovery: u64, n: nat, now: u64)
    requires
        n < usize::MAX,
    ensures
        ({
            let b0 = CircuitBreaker {
                failure_threshold: threshold,
                recovery_timeout_ms: recovery,
                state: CircuitBreakerState::Closed,
                failure_count: 0,
                last_failure_time_ms: None,
            };
            let b = breaker_after_failures(b0, n, now);
            &&& b.failure_count == n
            &&& (b.state == CircuitBreakerState::Open <==> (n > 0 && n >= threshold))
        }),
    decreases n,
{
    if n > 0 {
        law_breaker_opens_at_threshold(threshold, recovery, (n - 1) as nat, now);
        let b0 = CircuitBreaker {
            failure_threshold: threshold,
            recovery_timeout_ms: recovery,
            state: CircuitBreakerState::Closed,
            failure_count: 0,
            last_failure_time_ms: None,
        };
        let prev = breaker_after_failures(b0, (n - 1) as nat, now);
        assert(breaker_after_failures(b0, n, now) == breaker_after_failure(prev, now));
        assert(prev.failure_threshold == threshold) by {
            lemma_breaker_keeps_threshold(b0, (n - 1) as nat, now);
        }
    }
}

proof fn lemma_adapt_monotone(b1: nat, b2: nat, error: Option<TransferError>)
    requires
        b1 <= b2,
    ensures
        adapt_to_error(b1, error) <= adapt_to_error(b2, error),
{
    assert(b1 * 3 / 2 <= b2 * 3 / 2) by (nonlinear_arith)
        requires
            b1 <= b2,
    ;
    assert(b1 / 2 <= b2 / 2) by (nonlinear_arith)
        requires
            b1 <= b2,
    ;
}

proof fn lemma_jitter_monotone(s: RetryStrategy, b1: nat, b2: nat, sample: nat)
    requires
        b1 <= b2,
    ensures
        jitter_for(s, b1, sample) <= jitter_for(s, b2, sample),
{
    let j = s.jitter_factor_milli as nat;
    assert(b1 * j * sample / 1_000_000_000 <= b2 * j * sample / 1_000_000_000) by (nonlinear_arith)
        requires
            b1 <= b2,
    ;
}

/// With a multiplier of at least one, a later attempt never waits less
/// than an earlier one after the same error and the same jitter draw.
pub proof fn law_retry_delay_monotone(s: RetryStrategy, a1: u32, a2: u32, error: Option<TransferError>, sample: nat)
    requires
        s.backoff_multiplier_milli >= 1000,
        a1 <= a2,
    ensures
        retry_delay_for(s, a1, error, sample) <= retry_delay_for(s, a2, error, sample),
{
    let i = s.initial_delay_ms as nat;
    let m = s.backoff_multiplier_milli as nat;
    let k1 = a1 as nat;
    let dk = (a2 - a1) as nat;
    lemma_pow_add(m, k1, dk);
    lemma_pow_add(1000, k1, dk);
    lemma_pow_base_monotone(1000, m, dk);
    lemma_pow_positive(1000, k1);
    lemma_pow_positive(1000, a2 as nat);
    assert(k1 + dk == a2 as nat);
    let m1 = pow_nat(m, k1);
    let md = pow_nat(m, dk);
    let t1 = pow_nat(1000, k1);
    let td = pow_nat(1000, dk);
    assert((i * m1) * (t1 * td) <= (i * (m1 * md)) * t1) by (nonlinear_arith)
        requires
            td <= md,
    ;
    lemma_capped_quotient_monotone(i * m1, t1, i * (m1 * md), t1 * td, u64::MAX as nat);
    let e1 = exponential_delay(s, a1);
    let e2 = exponential_delay(s, a2);
    assert(e1 <= e2);
    lemma_adapt_monotone(e1, e2, error);
    let b1 = base_delay(s, a1, error);
    let b2 = base_delay(s, a2, error);
    assert(b1 <= b2);
    lemma_jitter_monotone(s, b1, b2, sample);
}

/// The retry delay never exceeds the policy's maximum.
pub proof fn law_retry_delay_capped(s: RetryStrategy, attempt: u32, error: Option<TransferError>, sample: nat)
    ensures
        retry_delay_for(s, attempt, error, sample) <= s.max_delay_ms,
{
}


/// A fresh sequence allowing `n` attempts, moved on after `k` errors,
/// stands at attempt `k` and can retry exactly while `k` is below `n`.
pub proof fn law_can_retry_after_attempts(n: u32, now: u64, errors: Seq<TransferError>)
    requires
        errors.len() <= u32::MAX,
    ensures
        attempted_all(fresh_context(n, now), errors).attempt == errors.len(),
        attempted_all(fresh_context(n, now), errors).max_attempts == n,
        (attempted_all(fresh_context(n, now), errors).attempt < attempted_all(fresh_context(n, now), errors).max_attempts)
            <==> errors.len() < n,
    decreases errors.len(),
{
    if errors.len() > 0 {
        law_can_retry_after_attempts(n, now, errors.drop_last());
    }
}

} // verus!
