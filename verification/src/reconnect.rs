//! Reconnection with exponential backoff: counts attempts, computes the
//! delay before the next one and decides when to give up.
use vstd::prelude::*;

use crate::bignum::{
    capped_quotient,
    lemma_capped_quotient_le_cap,
    lemma_capped_quotient_monotone,
    lemma_capped_quotient_step,
    lemma_pow_add,
    lemma_pow_base_monotone,
    lemma_pow_positive,
    pow_nat,
    scaled_floor_capped,
};
use crate::clock::{elapsed_between, elapsed_ms, now_ms};
use crate::error_classifier::{describe_spec, retryable, SshErrorClassifier, SshErrorType};
use crate::models::ReconnectSettings;
use crate::text::{decimal, with_decimal};

verus! {

/// The factor by which the last error scales the delay, as a numerator and
/// a denominator: rate limiting doubles it, resource exhaustion adds half.
pub open spec fn error_scale(last: Option<SshErrorType>) -> (nat, nat) {
    match last {
        Some(SshErrorType::RateLimited) => (2, 1),
        Some(SshErrorType::ResourceExhausted) => (3, 2),
        _ => (1, 1),
    }
}

/// Exponent used after `attempts` failed attempts: the first retry waits the
/// initial delay.
pub open spec fn backoff_exponent(attempts: u32) -> nat {
    if attempts == 0 {
        0
    } else {
        (attempts - 1) as nat
    }
}

/// Numerator of the delay after `attempts` failed attempts whose last error
/// was `last`: the initial delay times the error's scale numerator, times
/// the multiplier (in thousandths) once per attempt after the first.
pub open spec fn delay_num(config: ReconnectSettings, attempts: u32, last: Option<SshErrorType>) -> nat {
    (config.initial_delay_ms as nat) * error_scale(last).0 * pow_nat(
        config.backoff_multiplier_milli as nat,
        backoff_exponent(attempts),
    )
}

/// Denominator of that delay: the error's scale denominator times 1000 per
/// multiplication.
pub open spec fn delay_den(config: ReconnectSettings, attempts: u32, last: Option<SshErrorType>) -> nat {
    error_scale(last).1 * pow_nat(1000, backoff_exponent(attempts))
}

/// The delay in milliseconds after `attempts` failed attempts whose last
/// error was `last`: the exact scaled delay rounded down once, capped at the
/// maximum delay.
pub open spec fn delay_after(config: ReconnectSettings, attempts: u32, last: Option<SshErrorType>) -> nat {
    capped_quotient(delay_num(config, attempts, last), delay_den(config, attempts, last), config.max_delay_ms as nat)
}

/// Whether another attempt is allowed.
pub open spec fn may_retry(config: ReconnectSettings, attempts: u32, last: Option<SshErrorType>) -> bool {
    &&& config.enable_auto_reconnect
    &&& attempts < config.max_reconnect_attempts
    &&& match last {
        Some(t) => retryable(t),
        None => true,
    }
}

/// Reconnection state: attempts made, the last error category and the time
/// spent waiting.  Times are milliseconds on the clock of [`crate::clock`].
pub struct ReconnectManager {
    pub config: ReconnectSettings,
    pub attempt_count: u32,
    pub last_error_type: Option<SshErrorType>,
    pub last_attempt_time_ms: Option<u64>,
    /// At most [`MAX_RETRY_TIME_MS`].
    pub total_retry_time_ms: u128,
}

/// The longest total retry time, in milliseconds: that of the longest
/// `std::time::Duration`, `u64::MAX` seconds and 999 milliseconds.
pub const MAX_RETRY_TIME_MS: u128 = 18_446_744_073_709_551_615_999u128;

/// The delay's denominator is positive.
proof fn lemma_delay_den_positive(config: ReconnectSettings, attempts: u32, last: Option<SshErrorType>)
    ensures
        delay_den(config, attempts, last) > 0,
{
    let p = pow_nat(1000, backoff_exponent(attempts));
    lemma_pow_positive(1000, backoff_exponent(attempts));
    assert(error_scale(last).1 * p > 0) by (nonlinear_arith)
        requires
            error_scale(last).1 >= 1,
            p > 0,
    ;
}

/// The `Debug` text of a `std::time::Duration` of `secs` seconds and
/// `nanos` nanoseconds.
pub uninterp spec fn duration_debug_text(secs: u64, nanos: u32) -> Seq<char>;

/// Calls `std::time::Duration::new` and formats the duration with its
/// `Debug` impl, which picks the unit.  `Duration::new` panics only when the
/// nanoseconds carry the seconds past `u64::MAX`, which the bound on
/// `nanos` rules out.  The contract states only that the result is
/// `duration_debug_text` of the inputs.
#[verifier::external_body]
fn duration_debug(secs: u64, nanos: u32) -> (r: String)
    requires
        nanos < 1_000_000_000,
    ensures
        r@ == duration_debug_text(secs, nanos),
{
    format!("{:?}", std::time::Duration::new(secs, nanos))
}

/// The `Debug` text of a duration of `ms` milliseconds.
pub open spec fn duration_ms_text(ms: u128) -> Seq<char> {
    duration_debug_text((ms / 1000) as u64, ((ms % 1000) * 1_000_000) as u32)
}

/// The status line: attempts made and allowed, the last error's
/// description and the total retry time.
pub open spec fn summary_text(attempts: u32, max: u32, error_desc: Seq<char>, total_ms: u128) -> Seq<char> {
    "Attempt "@ + decimal(attempts as nat) + "/"@ + decimal(max as nat) + " - Last error: "@ + error_desc
        + " - Total retry time: "@ + duration_ms_text(total_ms)
}

impl ReconnectManager {
    /// Whether another attempt is allowed in this state.
    pub open spec fn spec_should_retry(&self) -> bool {
        may_retry(self.config, self.attempt_count, self.last_error_type)
    }

    /// The delay before the next attempt, or `None` when no attempt is due.
    pub open spec fn spec_delay(&self) -> Option<u64> {
        if self.spec_should_retry() {
            Some(delay_after(self.config, self.attempt_count, self.last_error_type) as u64)
        } else {
            None
        }
    }

    /// A manager with the given settings and no attempt made.
    pub fn new(config: ReconnectSettings) -> (r: Self)
        ensures
            r.config == config,
            r.attempt_count == 0,
            r.last_error_type is None,
            r.last_attempt_time_ms is None,
            r.total_retry_time_ms == 0,
    {
        ReconnectManager {
            config,
            attempt_count: 0,
            last_error_type: None,
            last_attempt_time_ms: None,
            total_retry_time_ms: 0,
        }
    }

    /// A manager with the default settings: 5 attempts, 1000 ms initial
    /// delay, 30000 ms cap, doubling, enabled.
    pub fn with_defaults() -> (r: Self)
        ensures
            r.config == (ReconnectSettings {
                max_reconnect_attempts: 5,
                initial_delay_ms: 1000,
                max_delay_ms: 30000,
                backoff_multiplier_milli: 2000,
                enable_auto_reconnect: true,
            }),
            r.attempt_count == 0,
            r.last_error_type is None,
            r.last_attempt_time_ms is None,
            r.total_retry_time_ms == 0,
    {
        Self::new(ReconnectSettings::default())
    }

    /// Whether automatic reconnection is enabled.
    pub fn is_enabled(&self) -> (r: bool)
        ensures
            r == self.config.enable_auto_reconnect,
    {
        self.config.enable_auto_reconnect
    }

    /// Enables or disables automatic reconnection.
    pub fn set_enabled(&mut self, enabled: bool)
        ensures
            *final(self) == (ReconnectManager {
                config: ReconnectSettings { enable_auto_reconnect: enabled, ..old(self).config },
                ..*old(self)
            }),
    {
        self.config.enable_auto_reconnect = enabled;
    }

    /// Number of failed attempts recorded.
    pub fn attempt_count(&self) -> (r: u32)
        ensures
            r == self.attempt_count,
    {
        self.attempt_count
    }

    /// Maximum number of attempts.
    pub fn max_attempts(&self) -> (r: u32)
        ensures
            r == self.config.max_reconnect_attempts,
    {
        self.config.max_reconnect_attempts
    }

    /// Category of the last recorded error.
    pub fn last_error_type(&self) -> (r: Option<SshErrorType>)
        ensures
            r == self.last_error_type,
    {
        self.last_error_type
    }

    /// Total delay, in milliseconds, accumulated by recorded attempts.
    pub fn total_retry_time(&self) -> (r: u128)
        ensures
            r == self.total_retry_time_ms,
    {
        self.total_retry_time_ms
    }

    /// Whether to try again: reconnection is enabled, fewer attempts than the
    /// maximum were made, and the last error (if any) is not permanent.
    pub fn should_retry(&self) -> (r: bool)
        ensures
            r == self.spec_should_retry(),
    {
        if !self.config.enable_auto_reconnect {
            return false;
        }
        if self.attempt_count >= self.config.max_reconnect_attempts {
            return false;
        }
        if let Some(error_type) = self.last_error_type {
            if !SshErrorClassifier::should_retry(error_type) {
                return false;
            }
        }
        true
    }

    /// The delay in milliseconds before the next attempt, or `None` when no
    /// retry is due.  The delay is the initial delay multiplied by the
    /// multiplier once per attempt after the first, doubled after a
    /// rate-limit error, increased by half after resource exhaustion, and
    /// capped at the maximum delay; the exact value is rounded down once.
    pub fn calculate_delay(&self) -> (r: Option<u64>)
        ensures
            r == self.spec_delay(),
            r matches Some(d) ==> d <= self.config.max_delay_ms,
    {
        if !self.should_retry() {
            return None;
        }
        let (scale_num, scale_den): (u128, u128) = match self.last_error_type {
            Some(SshErrorType::RateLimited) => (2, 1),
            Some(SshErrorType::ResourceExhausted) => (3, 2),
            _ => (1, 1),
        };
        let exponent: u32 = if self.attempt_count == 0 { 0 } else { self.attempt_count - 1 };
        let d = scaled_floor_capped(
            (self.config.initial_delay_ms as u128) * scale_num,
            scale_den,
            self.config.backoff_multiplier_milli as u64,
            exponent,
            self.config.max_delay_ms as u64,
        );
        proof {
            lemma_delay_den_positive(self.config, self.attempt_count, self.last_error_type);
            lemma_capped_quotient_le_cap(
                delay_num(self.config, self.attempt_count, self.last_error_type),
                delay_den(self.config, self.attempt_count, self.last_error_type),
                self.config.max_delay_ms as nat,
            );
        }
        Some(d)
    }

    /// The state after a failed attempt with an `error_type` error, before
    /// the total retry time is updated.
    pub open spec fn after_attempt(&self, error_type: SshErrorType) -> ReconnectManager {
        ReconnectManager {
            attempt_count: (self.attempt_count + 1) as u32,
            last_error_type: Some(error_type),
            ..*self
        }
    }

    /// The total retry time after a failed attempt with an `error_type`
    /// error: the delay then due, if any, added.
    pub open spec fn total_after(&self, error_type: SshErrorType) -> int {
        match self.after_attempt(error_type).spec_delay() {
            Some(d) => self.total_retry_time_ms + d,
            None => self.total_retry_time_ms as int,
        }
    }

    /// Whether a failed attempt with an `error_type` error can be recorded:
    /// the attempt count and the total retry time stay representable.
    pub fn attempt_fits(&self, error_type: SshErrorType) -> (r: bool)
        ensures
            r == (self.attempt_count < u32::MAX && self.total_after(error_type) <= MAX_RETRY_TIME_MS),
    {
        if self.attempt_count == u32::MAX {
            return false;
        }
        let probe = ReconnectManager {
            config: self.config,
            attempt_count: self.attempt_count + 1,
            last_error_type: Some(error_type),
            last_attempt_time_ms: self.last_attempt_time_ms,
            total_retry_time_ms: self.total_retry_time_ms,
        };
        match probe.calculate_delay() {
            Some(d) => self.total_retry_time_ms <= MAX_RETRY_TIME_MS && d as u128 <= MAX_RETRY_TIME_MS
                - self.total_retry_time_ms,
            None => self.total_retry_time_ms <= MAX_RETRY_TIME_MS,
        }
    }

    /// Records a failed attempt made now; see [`Self::record_attempt_at`].
    pub fn record_attempt(&mut self, error_type: SshErrorType)
        requires
            old(self).attempt_count < u32::MAX,
            old(self).total_after(error_type) <= MAX_RETRY_TIME_MS,
        ensures
            final(self).config == old(self).config,
            final(self).attempt_count == old(self).attempt_count + 1,
            final(self).last_error_type == Some(error_type),
            final(self).last_attempt_time_ms is Some,
            final(self).total_retry_time_ms == old(self).total_after(error_type),
    {
        let now = now_ms();
        self.record_attempt_at(error_type, now);
    }

    /// Records a failed attempt made at `now`: one more attempt, the error
    /// category remembered, and the delay now due (if any) added to the total
    /// retry time.
    pub fn record_attempt_at(&mut self, error_type: SshErrorType, now: u64)
        requires
            old(self).attempt_count < u32::MAX,
            old(self).total_after(error_type) <= MAX_RETRY_TIME_MS,
        ensures
            final(self).config == old(self).config,
            final(self).attempt_count == old(self).attempt_count + 1,
            final(self).last_error_type == Some(error_type),
            final(self).last_attempt_time_ms == Some(now),
            final(self).total_retry_time_ms == old(self).total_after(error_type),
    {
        self.attempt_count = self.attempt_count + 1;
        self.last_error_type = Some(error_type);
        self.last_attempt_time_ms = Some(now);
        if let Some(delay) = self.calculate_delay() {
            self.total_retry_time_ms = self.total_retry_time_ms + delay as u128;
        }
    }

    /// Forgets all attempts (after a successful connection).
    pub fn reset(&mut self)
        ensures
            final(self).config == old(self).config,
            final(self).attempt_count == 0,
            final(self).last_error_type is None,
            final(self).last_attempt_time_ms is None,
            final(self).total_retry_time_ms == 0,
    {
        self.attempt_count = 0;
        self.last_error_type = None;
        self.last_attempt_time_ms = None;
        self.total_retry_time_ms = 0;
    }

    /// Milliseconds from the last attempt, if any, to `now`.
    pub open spec fn since_last_attempt(&self, now: u64) -> Option<u64> {
        match self.last_attempt_time_ms {
            Some(t) => Some(elapsed_between(t, now)),
            None => None,
        }
    }

    /// At least three attempts failed and the last one was less than 30
    /// seconds before `now`.
    pub open spec fn rapid_at(&self, now: u64) -> bool {
        self.attempt_count >= 3 && match self.last_attempt_time_ms {
            Some(t) => elapsed_between(t, now) < 30000,
            None => false,
        }
    }

    /// Milliseconds since the last attempt, measured now.
    pub fn time_since_last_attempt(&self) -> (r: Option<u64>)
        ensures
            exists|now: u64| r == #[trigger] self.since_last_attempt(now),
    {
        let now = now_ms();
        self.time_since_last_attempt_at(now)
    }

    /// Milliseconds from the last attempt to `now`.
    pub fn time_since_last_attempt_at(&self, now: u64) -> (r: Option<u64>)
        ensures
            r == self.since_last_attempt(now),
    {
        match self.last_attempt_time_ms {
            Some(t) => Some(elapsed_ms(t, now)),
            None => None,
        }
    }

    /// A one-line status: attempts made and allowed, the last error's
    /// description (or "No error") and the total retry time.
    pub fn status_summary(&self) -> (r: String)
        requires
            self.total_retry_time_ms <= MAX_RETRY_TIME_MS,
        ensures
            r@ == summary_text(
                self.attempt_count,
                self.config.max_reconnect_attempts,
                match self.last_error_type {
                    Some(t) => describe_spec(t),
                    None => "No error"@,
                },
                self.total_retry_time_ms,
            ),
    {
        let error_desc = match self.last_error_type {
            Some(t) => SshErrorClassifier::describe(t),
            None => "No error",
        };
        let head = with_decimal(String::from_str("Attempt "), self.attempt_count as u64).concat("/");
        let r = with_decimal(head, self.config.max_reconnect_attempts as u64)
            .concat(" - Last error: ")
            .concat(error_desc)
            .concat(" - Total retry time: ")
            .concat(
            duration_debug(
                (self.total_retry_time_ms / 1000) as u64,
                ((self.total_retry_time_ms % 1000) * 1_000_000) as u32,
            ).as_str(),
        );
        proof {
            assert(r@ =~= summary_text(
                self.attempt_count,
                self.config.max_reconnect_attempts,
                error_desc@,
                self.total_retry_time_ms,
            ));
        }
        r
    }

    /// Whether at least three attempts failed and the last one was less than
    /// 30 seconds ago, measured now.
    pub fn is_rapid_retry(&self) -> (r: bool)
        ensures
            exists|now: u64| r == #[trigger] self.rapid_at(now),
    {
        let now = now_ms();
        self.is_rapid_retry_at(now)
    }

    /// Whether at least three attempts failed and the last one was less than
    /// 30 seconds before `now`.
    pub fn is_rapid_retry_at(&self, now: u64) -> (r: bool)
        ensures
            r == self.rapid_at(now),
    {
        if self.attempt_count < 3 {
            return false;
        }
        match self.time_since_last_attempt_at(now) {
            Some(time) => time < 30000,
            None => false,
        }
    }

    /// Same as [`Self::calculate_delay`].
    pub fn get_next_delay(&self) -> (r: Option<u64>)
        ensures
            r == self.spec_delay(),
    {
        self.calculate_delay()
    }
}

/// Builds a [`ReconnectManager`] from the default settings with changes.
pub struct ReconnectManagerBuilder {
    pub config: ReconnectSettings,
}

impl ReconnectManagerBuilder {
    /// A builder holding the default settings.
    pub fn new() -> (r: Self)
        ensures
            r.config == (ReconnectSettings {
                max_reconnect_attempts: 5,
                initial_delay_ms: 1000,
                max_delay_ms: 30000,
                backoff_multiplier_milli: 2000,
                enable_auto_reconnect: true,
            }),
    {
        ReconnectManagerBuilder { config: ReconnectSettings::default() }
    }

    /// Sets the maximum number of attempts.
    pub fn max_attempts(self, attempts: u32) -> (r: Self)
        ensures
            r.config == (ReconnectSettings { max_reconnect_attempts: attempts, ..self.config }),
    {
        let mut b = self;
        b.config.max_reconnect_attempts = attempts;
        b
    }

    /// Sets the initial delay in milliseconds.
    pub fn initial_delay_ms(self, ms: u32) -> (r: Self)
        ensures
            r.config == (ReconnectSettings { initial_delay_ms: ms, ..self.config }),
    {
        let mut b = self;
        b.config.initial_delay_ms = ms;
        b
    }

    /// Sets the maximum delay in milliseconds.
    pub fn max_delay_ms(self, ms: u32) -> (r: Self)
        ensures
            r.config == (ReconnectSettings { max_delay_ms: ms, ..self.config }),
    {
        let mut b = self;
        b.config.max_delay_ms = ms;
        b
    }

    /// Sets the backoff multiplier, in thousandths.
    pub fn backoff_multiplier(self, multiplier_milli: u32) -> (r: Self)
        ensures
            r.config == (ReconnectSettings { backoff_multiplier_milli: multiplier_milli, ..self.config }),
    {
        let mut b = self;
        b.config.backoff_multiplier_milli = multiplier_milli;
        b
    }

    /// Enables or disables automatic reconnection.
    pub fn enabled(self, enabled: bool) -> (r: Self)
        ensures
            r.config == (ReconnectSettings { enable_auto_reconnect: enabled, ..self.config }),
    {
        let mut b = self;
        b.config.enable_auto_reconnect = enabled;
        b
    }

    /// A manager with the collected settings and no attempt made.
    pub fn build(self) -> (r: ReconnectManager)
        ensures
            r.config == self.config,
            r.attempt_count == 0,
            r.last_error_type is None,
            r.last_attempt_time_ms is None,
            r.total_retry_time_ms == 0,
    {
        ReconnectManager::new(self.config)
    }
}

impl Default for ReconnectManagerBuilder {
    fn default() -> (r: Self)
        ensures
            r.config == (ReconnectSettings {
                max_reconnect_attempts: 5,
                initial_delay_ms: 1000,
                max_delay_ms: 30000,
                backoff_multiplier_milli: 2000,
                enable_auto_reconnect: true,
            }),
    {
        Self::new()
    }
}

/// The exact delay after `attempts` failed attempts, before the error's
/// scale and the cap, is `scaled_initial / pow_nat(1000, exponent)`.
pub open spec fn scaled_initial(config: ReconnectSettings, attempts: u32) -> nat {
    (config.initial_delay_ms as nat) * pow_nat(config.backoff_multiplier_milli as nat, backoff_exponent(attempts))
}

/// The delay never exceeds the configured maximum.
pub proof fn law_delay_capped(config: ReconnectSettings, attempts: u32, last: Option<SshErrorType>)
    ensures
        delay_after(config, attempts, last) <= config.max_delay_ms,
{
    lemma_delay_den_positive(config, attempts, last);
    lemma_capped_quotient_le_cap(
        delay_num(config, attempts, last),
        delay_den(config, attempts, last),
        config.max_delay_ms as nat,
    );
}

/// With a multiplier of at least one, more failed attempts never shorten the
/// delay (same last error).
pub proof fn law_delay_nondecreasing(
    config: ReconnectSettings,
    a1: u32,
    a2: u32,
    last: Option<SshErrorType>,
)
    requires
        config.backoff_multiplier_milli >= 1000,
        a1 <= a2,
    ensures
        delay_after(config, a1, last) <= delay_after(config, a2, last),
{
    let i = config.initial_delay_ms as nat;
    let m = config.backoff_multiplier_milli as nat;
    let k1 = backoff_exponent(a1);
    let k2 = backoff_exponent(a2);
    let dk = (k2 - k1) as nat;
    let s0 = error_scale(last).0;
    let s1 = error_scale(last).1;
    lemma_pow_add(m, k1, dk);
    lemma_pow_add(1000, k1, dk);
    lemma_pow_base_monotone(1000, m, dk);
    lemma_delay_den_positive(config, a1, last);
    lemma_delay_den_positive(config, a2, last);
    assert(k1 + dk == k2);
    let m1 = pow_nat(m, k1);
    let md = pow_nat(m, dk);
    let t1 = pow_nat(1000, k1);
    let td = pow_nat(1000, dk);
    assert((i * s0 * m1) * (s1 * (t1 * td)) <= (i * s0 * (m1 * md)) * (s1 * t1)) by (nonlinear_arith)
        requires
            td <= md,
    ;
    lemma_capped_quotient_monotone(
        delay_num(config, a1, last),
        delay_den(config, a1, last),
        delay_num(config, a2, last),
        delay_den(config, a2, last),
        config.max_delay_ms as nat,
    );
}

/// After a rate-limit error the delay is at least the delay after a
/// temporary error with the same count, and strictly longer whenever the
/// exact unscaled delay is at least half a millisecond and below the cap.
pub proof fn law_rate_limit_waits_longer(config: ReconnectSettings, attempts: u32)
    ensures
        delay_after(config, attempts, Some(SshErrorType::RateLimited)) >= delay_after(
            config,
            attempts,
            Some(SshErrorType::Temporary),
        ),
        2 * scaled_initial(config, attempts) >= pow_nat(1000, backoff_exponent(attempts)) && scaled_initial(
            config,
            attempts,
        ) < config.max_delay_ms * pow_nat(1000, backoff_exponent(attempts)) ==> delay_after(
            config,
            attempts,
            Some(SshErrorType::RateLimited),
        ) > delay_after(config, attempts, Some(SshErrorType::Temporary)),
{
    let rl = Some(SshErrorType::RateLimited);
    let tp = Some(SshErrorType::Temporary);
    let i = config.initial_delay_ms as nat;
    let pw = pow_nat(config.backoff_multiplier_milli as nat, backoff_exponent(attempts));
    let p = pow_nat(1000, backoff_exponent(attempts));
    let x = scaled_initial(config, attempts);
    let cap = config.max_delay_ms as nat;
    lemma_delay_den_positive(config, attempts, tp);
    assert(delay_num(config, attempts, tp) == x && delay_num(config, attempts, rl) == 2 * x) by (nonlinear_arith)
        requires
            delay_num(config, attempts, tp) == i * 1 * pw,
            delay_num(config, attempts, rl) == i * 2 * pw,
            x == i * pw,
    ;
    assert(error_scale(tp) == (1nat, 1nat) && error_scale(rl) == (2nat, 1nat));
    assert(delay_den(config, attempts, tp) == 1 * p && delay_den(config, attempts, rl) == 1 * p);
    assert(1 * p == p);
    assert(x * p <= (2 * x) * p) by (nonlinear_arith);
    lemma_capped_quotient_monotone(x, p, 2 * x, p, cap);
    if 2 * x >= p && x < cap * p {
        let q = x / p;
        assert(q * p <= x) by (nonlinear_arith)
            requires
                q == x / p,
                p > 0,
        ;
        assert(2 * x >= (q + 1) * p) by (nonlinear_arith)
            requires
                q * p <= x,
                2 * x >= p,
        ;
        lemma_capped_quotient_step(x, 2 * x, p, cap);
    }
}

/// A permanent error stops retrying, whatever the count and settings.
pub proof fn law_permanent_error_stops(config: ReconnectSettings, attempts: u32)
    ensures
        !may_retry(config, attempts, Some(SshErrorType::Permanent)),
{
}

/// Once the attempt count reaches the maximum, no retry is allowed.
pub proof fn law_attempts_exhausted(config: ReconnectSettings, attempts: u32, last: Option<SshErrorType>)
    requires
        attempts >= config.max_reconnect_attempts,
    ensures
        !may_retry(config, attempts, last),
{
}


/// The delay schedule of two managers `m` and `n`: no delay exactly when
/// no retry is allowed, and every delay within the cap; with the same
/// settings and count, a rate-limit error waits at least as long as a
/// temporary one (longer while the exact unscaled delay is at least half a
/// millisecond and under the cap); with the same settings and last error
/// and a multiplier of at least one, a later attempt never waits less.
pub proof fn law_delay_schedule(m: ReconnectManager, n: ReconnectManager)
    ensures
        m.spec_delay() is None <==> !m.spec_should_retry(),
        m.spec_delay() matches Some(d) ==> d <= m.config.max_delay_ms,
        n.config == m.config && n.attempt_count == m.attempt_count && m.last_error_type == Some(
            SshErrorType::RateLimited,
        ) && n.last_error_type == Some(SshErrorType::Temporary) && m.spec_should_retry() ==> {
            let x = scaled_initial(m.config, m.attempt_count);
            let p = pow_nat(1000, backoff_exponent(m.attempt_count));
            &&& n.spec_should_retry()
            &&& m.spec_delay()->0 >= n.spec_delay()->0
            &&& 2 * x >= p && x < m.config.max_delay_ms * p ==> m.spec_delay()->0 > n.spec_delay()->0
        },
        n.config == m.config && n.last_error_type == m.last_error_type && m.attempt_count <= n.attempt_count
            && n.spec_should_retry() && m.config.backoff_multiplier_milli >= 1000 ==> m.spec_should_retry()
            && m.spec_delay()->0 <= n.spec_delay()->0,
{
    law_delay_capped(m.config, m.attempt_count, m.last_error_type);
    law_delay_capped(n.config, n.attempt_count, n.last_error_type);
    law_rate_limit_waits_longer(m.config, m.attempt_count);
    if m.config.backoff_multiplier_milli >= 1000 && m.attempt_count <= n.attempt_count {
        law_delay_nondecreasing(m.config, m.attempt_count, n.attempt_count, m.last_error_type);
    }
}

} // verus!
