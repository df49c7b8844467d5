//! Health of the pooled SSH sessions: scores, health classes and the repair
//! actions recommended for a pool.
use vstd::prelude::*;

use crate::clock::{elapsed_between, elapsed_ms, now_ms};
use crate::models::PoolHealthSettings;

verus! {

/// Health class of one session.
#[derive(Debug, Clone, Copy, PartialEq, Eq, Structural)]
pub enum SessionHealth {
    Healthy,
    Degraded,
    Unhealthy,
    Expired,
}

impl Default for SessionHealth {
    fn default() -> (r: Self)
        ensures
            r == SessionHealth::Healthy,
    {
        SessionHealth::Healthy
    }
}

/// Repair recommended for the pool.
#[derive(Debug, Clone, Copy, PartialEq, Eq, Structural)]
pub enum HealthAction {
    RebuildMain,
    RebuildBackground(usize),
    RebuildAi,
    WarmupSessions(usize),
}

/// Health report of a whole pool.
#[derive(Debug, Clone)]
pub struct PoolHealthReport {
    pub main_session_health: SessionHealth,
    pub background_sessions_health: Vec<(usize, SessionHealth)>,
    pub ai_session_health: Option<SessionHealth>,
    pub recommended_actions: Vec<HealthAction>,
    /// Mean of the session scores, 0 to 100.
    pub overall_score: u32,
    /// Unix time in seconds.
    pub timestamp: u64,
}

impl Default for PoolHealthReport {
    fn default() -> (r: Self)
        ensures
            r.main_session_health == SessionHealth::Healthy,
            r.background_sessions_health@ == Seq::<(usize, SessionHealth)>::empty(),
            r.ai_session_health is None,
            r.recommended_actions@ == Seq::<HealthAction>::empty(),
            r.overall_score == 100,
            r.timestamp == 0,
    {
        PoolHealthReport {
            main_session_health: SessionHealth::Healthy,
            background_sessions_health: Vec::new(),
            ai_session_health: None,
            recommended_actions: Vec::new(),
            overall_score: 100,
            timestamp: 0,
        }
    }
}

/// Usage and failure record of one session.  Times are milliseconds on the
/// clock of [`crate::clock`].
#[derive(Debug, Clone, Copy, PartialEq, Eq, Structural)]
pub struct SessionHealthMetadata {
    pub created_at_ms: u64,
    pub last_used_ms: u64,
    pub consecutive_failures: u32,
    pub operation_count: u64,
    /// 0 to 100.
    pub health_score: u32,
}

/// Whole seconds from `from` to `now`.
pub open spec fn secs_between(from: u64, now: u64) -> u64 {
    (elapsed_between(from, now) / 1000) as u64
}

/// The record of a session created at `now`: no use, no failure, full score.
pub open spec fn fresh_metadata(now: u64) -> SessionHealthMetadata {
    SessionHealthMetadata {
        created_at_ms: now,
        last_used_ms: now,
        consecutive_failures: 0,
        operation_count: 0,
        health_score: 100,
    }
}

/// The record after a use at `now`: one more operation, and the last use
/// at `now`, or kept where it was if the wall clock stepped back before it,
/// so that the last-use time never goes back.
pub open spec fn used_at(m: SessionHealthMetadata, now: u64) -> SessionHealthMetadata {
    SessionHealthMetadata {
        last_used_ms: if now >= m.last_used_ms { now } else { m.last_used_ms },
        operation_count: (m.operation_count + 1) as u64,
        ..m
    }
}

impl Default for SessionHealthMetadata {
    fn default() -> (r: Self)
        ensures
            exists|now: u64| r == #[trigger] fresh_metadata(now),
    {
        Self::new_at(now_ms())
    }
}

impl SessionHealthMetadata {
    /// A record for a session created now.
    pub fn new() -> (r: Self)
        ensures
            exists|now: u64| r == #[trigger] fresh_metadata(now),
    {
        Self::new_at(now_ms())
    }

    /// A record for a session created at `now`.
    pub fn new_at(now: u64) -> (r: Self)
        ensures
            r == fresh_metadata(now),
    {
        SessionHealthMetadata {
            created_at_ms: now,
            last_used_ms: now,
            consecutive_failures: 0,
            operation_count: 0,
            health_score: 100,
        }
    }

    /// Notes a use at `now`.
    pub fn mark_used_at(&mut self, now: u64)
        requires
            old(self).operation_count < u64::MAX,
        ensures
            *final(self) == used_at(*old(self), now),
            final(self).last_used_ms >= old(self).last_used_ms,
    {
        if now >= self.last_used_ms {
            self.last_used_ms = now;
        }
        self.operation_count = self.operation_count + 1;
    }

    /// Notes a use now.
    pub fn mark_used(&mut self)
        requires
            old(self).operation_count < u64::MAX,
        ensures
            exists|now: u64| *final(self) == #[trigger] used_at(*old(self), now),
            final(self).last_used_ms >= old(self).last_used_ms,
    {
        self.mark_used_at(now_ms());
    }

    /// A failed health check: one more failure and 20 points off the score
    /// (not below 0).
    pub fn record_failure(&mut self)
        requires
            old(self).consecutive_failures < u32::MAX,
        ensures
            *final(self) == (SessionHealthMetadata {
                consecutive_failures: (old(self).consecutive_failures + 1) as u32,
                health_score: if old(self).health_score >= 20 {
                    (old(self).health_score - 20) as u32
                } else {
                    0
                },
                ..*old(self)
            }),
    {
        self.consecutive_failures = self.consecutive_failures + 1;
        self.health_score = self.health_score.saturating_sub(20);
    }

    /// A successful health check: failures cleared and 10 points back on the
    /// score (not above 100).
    pub fn record_success(&mut self)
        requires
            old(self).health_score <= u32::MAX - 10,
        ensures
            *final(self) == (SessionHealthMetadata {
                consecutive_failures: 0,
                health_score: if old(self).health_score + 10 <= 100 {
                    (old(self).health_score + 10) as u32
                } else {
                    100
                },
                ..*old(self)
            }),
    {
        self.consecutive_failures = 0;
        let raised = self.health_score + 10;
        self.health_score = if raised < 100 { raised } else { 100 };
    }

    /// Whole seconds since creation, at `now`.
    pub fn age_secs_at(&self, now: u64) -> (r: u64)
        ensures
            r == secs_between(self.created_at_ms, now),
    {
        elapsed_ms(self.created_at_ms, now) / 1000
    }

    /// Whole seconds since creation, measured now.
    pub fn age_secs(&self) -> (r: u64)
        ensures
            exists|now: u64| r == #[trigger] secs_between(self.created_at_ms, now),
    {
        self.age_secs_at(now_ms())
    }

    /// Whole seconds since the last use, at `now`.
    pub fn idle_secs_at(&self, now: u64) -> (r: u64)
        ensures
            r == secs_between(self.last_used_ms, now),
    {
        elapsed_ms(self.last_used_ms, now) / 1000
    }

    /// Whole seconds since the last use, measured now.
    pub fn idle_secs(&self) -> (r: u64)
        ensures
            exists|now: u64| r == #[trigger] secs_between(self.last_used_ms, now),
    {
        self.idle_secs_at(now_ms())
    }
}

/// Health class of a session at `now`: expired past the maximum age,
/// unhealthy at the failure threshold, degraded with a score under 50 or
/// when idle over five minutes after a failure, healthy otherwise.
pub open spec fn session_health(s: PoolHealthSettings, m: SessionHealthMetadata, now: u64) -> SessionHealth {
    if secs_between(m.created_at_ms, now) > s.max_session_age_minutes * 60 {
        SessionHealth::Expired
    } else if m.consecutive_failures >= s.unhealthy_threshold {
        SessionHealth::Unhealthy
    } else if m.health_score < 50 {
        SessionHealth::Degraded
    } else if secs_between(m.last_used_ms, now) > 300 && m.consecutive_failures > 0 {
        SessionHealth::Degraded
    } else {
        SessionHealth::Healthy
    }
}

/// The session should be rebuilt.
pub open spec fn needs_rebuild(h: SessionHealth) -> bool {
    h == SessionHealth::Unhealthy || h == SessionHealth::Expired
}

/// `a` minus `b`, or 0.
pub open spec fn sat_sub(a: int, b: int) -> int {
    if a >= b {
        a - b
    } else {
        0
    }
}

/// Points taken off for age: none up to half the maximum age, then 40
/// points per maximum age beyond the half (rounded down); everything when
/// the maximum age is zero and the session is older than a second.
pub open spec fn age_penalty(age_secs: u64, max_age_secs: u64) -> int {
    if max_age_secs == 0 {
        if age_secs > 0 {
            100
        } else {
            0
        }
    } else if age_secs * 2 > max_age_secs {
        (40 * age_secs) / (max_age_secs as int) - 20
    } else {
        0
    }
}

/// Points taken off for idling: two per minute beyond five.
pub open spec fn idle_penalty(idle_secs: u64) -> int {
    let idle_mins = idle_secs / 60;
    if idle_mins > 5 {
        (((idle_mins - 5) * 2) as u32) as int
    } else {
        0
    }
}

/// Score of a session at `now`: 100, minus 15 per consecutive failure, minus
/// the age and idle penalties, never below 0.
pub open spec fn session_score(s: PoolHealthSettings, m: SessionHealthMetadata, now: u64) -> u32 {
    let max_age_secs = (s.max_session_age_minutes * 60) as u64;
    let a = sat_sub(100, m.consecutive_failures * 15);
    let b = sat_sub(a, age_penalty(secs_between(m.created_at_ms, now), max_age_secs));
    sat_sub(b, idle_penalty(secs_between(m.last_used_ms, now))) as u32
}

/// Actions for the background sessions of `bg[0..n]`, in index order.
pub open spec fn background_actions(s: PoolHealthSettings, bg: Seq<SessionHealthMetadata>, now: u64, n: nat) -> Seq<HealthAction>
    decreases n,
{
    if n == 0 {
        Seq::empty()
    } else {
        let prev = background_actions(s, bg, now, (n - 1) as nat);
        if needs_rebuild(session_health(s, bg[n - 1], now)) {
            prev.push(HealthAction::RebuildBackground((n - 1) as usize))
        } else {
            prev
        }
    }
}

/// Number of healthy sessions among `bg[0..n]`.
pub open spec fn healthy_count(s: PoolHealthSettings, bg: Seq<SessionHealthMetadata>, now: u64, n: nat) -> nat
    decreases n,
{
    if n == 0 {
        0
    } else {
        healthy_count(s, bg, now, (n - 1) as nat) + if session_health(s, bg[n - 1], now)
            == SessionHealth::Healthy {
            1nat
        } else {
            0nat
        }
    }
}

/// Sum of the scores of `bg[0..n]`.
pub open spec fn score_sum(s: PoolHealthSettings, bg: Seq<SessionHealthMetadata>, now: u64, n: nat) -> nat
    decreases n,
{
    if n == 0 {
        0
    } else {
        score_sum(s, bg, now, (n - 1) as nat) + session_score(s, bg[n - 1], now) as nat
    }
}

/// The actions of a report, in order: the main session, the background
/// sessions by index, the helper session, then a warm-up of the missing
/// healthy background sessions.
pub open spec fn report_actions(
    s: PoolHealthSettings,
    main: SessionHealthMetadata,
    bg: Seq<SessionHealthMetadata>,
    ai: Option<SessionHealthMetadata>,
    now: u64,
) -> Seq<HealthAction> {
    let main_part = if needs_rebuild(session_health(s, main, now)) {
        seq![HealthAction::RebuildMain]
    } else {
        Seq::empty()
    };
    let ai_part = match ai {
        Some(m) => if needs_rebuild(session_health(s, m, now)) {
            seq![HealthAction::RebuildAi]
        } else {
            Seq::empty()
        },
        None => Seq::empty(),
    };
    let healthy = healthy_count(s, bg, now, bg.len());
    let warm_part = if healthy < s.session_warmup_count {
        seq![HealthAction::WarmupSessions((s.session_warmup_count - healthy) as usize)]
    } else {
        Seq::empty()
    };
    main_part + background_actions(s, bg, now, bg.len()) + ai_part + warm_part
}

/// Mean score over the main, background and helper sessions, computed in
/// 32-bit arithmetic: the sum of the scores divided by the number of
/// sessions taken modulo 2^32.
pub open spec fn report_score(
    s: PoolHealthSettings,
    main: SessionHealthMetadata,
    bg: Seq<SessionHealthMetadata>,
    ai: Option<SessionHealthMetadata>,
    now: u64,
) -> int {
    report_total(s, main, bg, ai, now) / (report_count(bg, ai) % 0x1_0000_0000)
}

/// Sum of the scores of the main, background and helper sessions.
pub open spec fn report_total(
    s: PoolHealthSettings,
    main: SessionHealthMetadata,
    bg: Seq<SessionHealthMetadata>,
    ai: Option<SessionHealthMetadata>,
    now: u64,
) -> int {
    session_score(s, main, now) + score_sum(s, bg, now, bg.len()) + match ai {
        Some(m) => session_score(s, m, now) as int,
        None => 0,
    }
}

/// Number of sessions in a report.
pub open spec fn report_count(bg: Seq<SessionHealthMetadata>, ai: Option<SessionHealthMetadata>) -> int {
    1 + bg.len() + if ai is Some { 1int } else { 0 }
}

/// `r` is the report on these sessions at `now`: the health of each, the
/// actions of [`report_actions`] and the mean score.
pub open spec fn is_report_at(
    s: PoolHealthSettings,
    main: SessionHealthMetadata,
    bg: Seq<SessionHealthMetadata>,
    ai: Option<SessionHealthMetadata>,
    now: u64,
    r: PoolHealthReport,
) -> bool {
    &&& r.main_session_health == session_health(s, main, now)
    &&& r.background_sessions_health@ == Seq::new(
        bg.len(),
        |i: int| (i as usize, session_health(s, bg[i], now)),
    )
    &&& r.ai_session_health == (match ai {
        Some(m) => Some(session_health(s, m, now)),
        None => None,
    })
    &&& r.recommended_actions@ == report_actions(s, main, bg, ai, now)
    &&& r.overall_score == report_score(s, main, bg, ai, now)
}

/// The optional helper session record, by value.
pub open spec fn opt_metadata(ai: Option<&SessionHealthMetadata>) -> Option<SessionHealthMetadata> {
    match ai {
        Some(m) => Some(*m),
        None => None,
    }
}

/// Judges sessions against the pool health settings.
pub struct PoolHealthChecker {
    pub settings: PoolHealthSettings,
}

proof fn lemma_age_penalty_nonneg(age_secs: u64, max_age_secs: u64)
    ensures
        age_penalty(age_secs, max_age_secs) >= 0,
{
    if max_age_secs != 0 && age_secs * 2 > max_age_secs {
        assert((40 * age_secs) / (max_age_secs as int) >= 20) by (nonlinear_arith)
            requires
                age_secs * 2 > max_age_secs,
                max_age_secs > 0,
        ;
    }
}

proof fn lemma_score_at_most_100(s: PoolHealthSettings, m: SessionHealthMetadata, now: u64)
    ensures
        session_score(s, m, now) <= 100,
{
    let max_age_secs = (s.max_session_age_minutes * 60) as u64;
    lemma_age_penalty_nonneg(secs_between(m.created_at_ms, now), max_age_secs);
}

proof fn lemma_score_sum_bound(s: PoolHealthSettings, bg: Seq<SessionHealthMetadata>, now: u64, n: nat)
    requires
        n <= bg.len(),
    ensures
        score_sum(s, bg, now, n) <= 100 * n,
    decreases n,
{
    if n > 0 {
        lemma_score_sum_bound(s, bg, now, (n - 1) as nat);
        lemma_score_at_most_100(s, bg[n - 1], now);
    }
}

proof fn lemma_score_sum_monotone(s: PoolHealthSettings, bg: Seq<SessionHealthMetadata>, now: u64, a: nat, b: nat)
    requires
        a <= b <= bg.len(),
    ensures
        score_sum(s, bg, now, a) <= score_sum(s, bg, now, b),
    decreases b,
{
    if a < b {
        lemma_score_sum_monotone(s, bg, now, a, (b - 1) as nat);
    }
}

proof fn lemma_healthy_bound(s: PoolHealthSettings, bg: Seq<SessionHealthMetadata>, now: u64, n: nat)
    requires
        n <= bg.len(),
    ensures
        healthy_count(s, bg, now, n) <= n,
    decreases n,
{
    if n > 0 {
        lemma_healthy_bound(s, bg, now, (n - 1) as nat);
    }
}

impl PoolHealthChecker {
    /// A checker with the given settings.
    pub fn new(settings: PoolHealthSettings) -> (r: Self)
        ensures
            r.settings == settings,
    {
        PoolHealthChecker { settings }
    }

    /// A checker with the default settings.
    pub fn with_defaults() -> (r: Self)
        ensures
            r.settings == (PoolHealthSettings {
                health_check_interval_secs: 60,
                session_warmup_count: 1,
                max_session_age_minutes: 60,
                unhealthy_threshold: 3,
            }),
    {
        PoolHealthChecker { settings: PoolHealthSettings::default() }
    }

    /// The settings.
    pub fn settings(&self) -> (r: &PoolHealthSettings)
        ensures
            *r == self.settings,
    {
        &self.settings
    }

    /// Replaces the settings.
    pub fn update_settings(&mut self, settings: PoolHealthSettings)
        ensures
            final(self).settings == settings,
    {
        self.settings = settings;
    }

    /// Health class of a session at `now`.
    pub fn check_session_health_at(&self, metadata: &SessionHealthMetadata, now: u64) -> (r: SessionHealth)
        ensures
            r == session_health(self.settings, *metadata, now),
    {
        let max_age_secs: u64 = self.settings.max_session_age_minutes as u64 * 60;
        if metadata.age_secs_at(now) > max_age_secs {
            return SessionHealth::Expired;
        }
        if metadata.consecutive_failures >= self.settings.unhealthy_threshold {
            return SessionHealth::Unhealthy;
        }
        if metadata.health_score < 50 {
            return SessionHealth::Degraded;
        }
        if metadata.idle_secs_at(now) > 300 && metadata.consecutive_failures > 0 {
            return SessionHealth::Degraded;
        }
        SessionHealth::Healthy
    }

    /// Health class of a session, measured now.
    pub fn check_session_health(&self, metadata: &SessionHealthMetadata) -> (r: SessionHealth)
        ensures
            exists|now: u64| r == #[trigger] session_health(self.settings, *metadata, now),
    {
        self.check_session_health_at(metadata, now_ms())
    }

    /// Score of a session at `now`, 0 to 100.
    pub fn calculate_health_score_at(&self, metadata: &SessionHealthMetadata, now: u64) -> (r: u32)
        requires
            metadata.consecutive_failures <= u32::MAX / 15,
        ensures
            r == session_score(self.settings, *metadata, now),
            r <= 100,
    {
        let mut score: u32 = 100u32.saturating_sub(metadata.consecutive_failures * 15);
        let max_age_secs: u64 = self.settings.max_session_age_minutes as u64 * 60;
        let age = metadata.age_secs_at(now);
        if max_age_secs == 0 {
            if age > 0 {
                score = 0;
            }
        } else if age > max_age_secs / 2 || (age == max_age_secs / 2 && max_age_secs % 2 == 1) {
            assert(age * 2 > max_age_secs);
            assert(age <= u64::MAX / 1000);
            let quotient: u128 = (40 * (age as u128)) / (max_age_secs as u128);
            assert(quotient >= 20) by (nonlinear_arith)
                requires
                    quotient == (40 * age) / (max_age_secs as int),
                    age * 2 > max_age_secs,
                    max_age_secs > 0,
            ;
            assert(quotient <= 40 * age) by (nonlinear_arith)
                requires
                    quotient == (40 * age) / (max_age_secs as int),
                    max_age_secs > 0,
            ;
            let penalty: u64 = (quotient - 20) as u64;
            score = if penalty >= score as u64 { 0 } else { score - penalty as u32 };
        } else {
            assert(!(age * 2 > max_age_secs));
        }
        let idle_mins = metadata.idle_secs_at(now) / 60;
        if idle_mins > 5 {
            let penalty: u32 = #[verifier::truncate] (((idle_mins - 5) * 2) as u32);
            score = score.saturating_sub(penalty);
        }
        score
    }

    /// Score of a session, measured now.
    pub fn calculate_health_score(&self, metadata: &SessionHealthMetadata) -> (r: u32)
        requires
            metadata.consecutive_failures <= u32::MAX / 15,
        ensures
            exists|now: u64| r == #[trigger] session_score(self.settings, *metadata, now),
            r <= 100,
    {
        self.calculate_health_score_at(metadata, now_ms())
    }

    /// Whether the session should be rebuilt at `now`: unhealthy or expired.
    pub fn should_rebuild_at(&self, metadata: &SessionHealthMetadata, now: u64) -> (r: bool)
        ensures
            r == needs_rebuild(session_health(self.settings, *metadata, now)),
    {
        let health = self.check_session_health_at(metadata, now);
        matches!(health, SessionHealth::Unhealthy | SessionHealth::Expired)
    }

    /// Whether the session should be rebuilt, measured now.
    pub fn should_rebuild(&self, metadata: &SessionHealthMetadata) -> (r: bool)
        ensures
            exists|now: u64| r == needs_rebuild(#[trigger] session_health(self.settings, *metadata, now)),
    {
        self.should_rebuild_at(metadata, now_ms())
    }

    /// The pool report at `now`, stamped `timestamp`: the health of every
    /// session, the rebuilds and warm-up needed, and the mean score.
    pub fn generate_report_at(
        &self,
        main_metadata: &SessionHealthMetadata,
        background_metadata: &[SessionHealthMetadata],
        ai_metadata: Option<&SessionHealthMetadata>,
        now: u64,
        timestamp: u64,
    ) -> (r: PoolHealthReport)
        requires
            main_metadata.consecutive_failures <= u32::MAX / 15,
            forall|i: int|
                0 <= i < background_metadata@.len() ==> #[trigger] background_metadata@[i].consecutive_failures
                    <= u32::MAX / 15,
            ai_metadata matches Some(m) ==> m.consecutive_failures <= u32::MAX / 15,
            report_total(self.settings, *main_metadata, background_metadata@, opt_metadata(ai_metadata), now)
                <= u32::MAX,
            report_count(background_metadata@, opt_metadata(ai_metadata)) % 0x1_0000_0000 != 0,
        ensures
            is_report_at(self.settings, *main_metadata, background_metadata@, opt_metadata(ai_metadata), now, r),
            report_count(background_metadata@, opt_metadata(ai_metadata)) <= u32::MAX ==> r.overall_score <= 100,
            r.timestamp == timestamp,
    {
        let ghost s = self.settings;
        let ghost bg = background_metadata@;
        let mut actions: Vec<HealthAction> = Vec::new();
        let mut total: u64 = 0;
        let mut count: u128 = 0;

        let main_health = self.check_session_health_at(main_metadata, now);
        let main_score = self.calculate_health_score_at(main_metadata, now);
        total = total + main_score as u64;
        count = count + 1;
        if matches!(main_health, SessionHealth::Unhealthy | SessionHealth::Expired) {
            actions.push(HealthAction::RebuildMain);
        }
        let ghost main_part = actions@;

        let mut bg_health: Vec<(usize, SessionHealth)> = Vec::new();
        let mut healthy_bg: usize = 0;
        let mut idx: usize = 0;
        while idx < background_metadata.len()
            invariant
                s == self.settings,
                bg == background_metadata@,
                main_score + score_sum(s, bg, now, bg.len()) <= u32::MAX,
                forall|i: int| 0 <= i < bg.len() ==> #[trigger] bg[i].consecutive_failures <= u32::MAX / 15,
                idx <= bg.len(),
                actions@ == main_part + background_actions(s, bg, now, idx as nat),
                bg_health@ == Seq::new(idx as nat, |i: int| (i as usize, session_health(s, bg[i], now))),
                healthy_bg == healthy_count(s, bg, now, idx as nat),
                total == main_score + score_sum(s, bg, now, idx as nat),
                main_score <= 100,
                count == 1 + idx,
            decreases bg.len() - idx,
        {
            let metadata = &background_metadata[idx];
            let health = self.check_session_health_at(metadata, now);
            let score = self.calculate_health_score_at(metadata, now);
            proof {
                lemma_score_sum_bound(s, bg, now, idx as nat);
                lemma_score_sum_monotone(s, bg, now, (idx + 1) as nat, bg.len());
                lemma_healthy_bound(s, bg, now, idx as nat);
            }
            total = total + score as u64;
            count = count + 1;
            if matches!(health, SessionHealth::Unhealthy | SessionHealth::Expired) {
                actions.push(HealthAction::RebuildBackground(idx));
            }
            if matches!(health, SessionHealth::Healthy) {
                healthy_bg = healthy_bg + 1;
            }
            bg_health.push((idx, health));
            proof {
                assert(actions@ =~= main_part + background_actions(s, bg, now, (idx + 1) as nat));
                assert(bg_health@ =~= Seq::new(
                    (idx + 1) as nat,
                    |i: int| (i as usize, session_health(s, bg[i], now)),
                ));
            }
            idx = idx + 1;
        }
        proof {
            lemma_score_sum_bound(s, bg, now, bg.len());
            lemma_healthy_bound(s, bg, now, bg.len());
        }
        let ghost before_ai = actions@;

        let ai_health = match ai_metadata {
            Some(m) => {
                let health = self.check_session_health_at(m, now);
                let score = self.calculate_health_score_at(m, now);
                total = total + score as u64;
                count = count + 1;
                if matches!(health, SessionHealth::Unhealthy | SessionHealth::Expired) {
                    actions.push(HealthAction::RebuildAi);
                }
                Some(health)
            },
            None => None,
        };
        let ghost before_warm = actions@;

        let warmup = self.settings.session_warmup_count as usize;
        if healthy_bg < warmup {
            actions.push(HealthAction::WarmupSessions(warmup - healthy_bg));
        }
        proof {
            let ai_opt = match ai_metadata {
                Some(m) => Some(*m),
                None => None,
            };
            assert(actions@ =~= report_actions(s, *main_metadata, bg, ai_opt, now));
        }
        let ghost ai_opt = opt_metadata(ai_metadata);
        assert(total == report_total(s, *main_metadata, bg, ai_opt, now));
        assert(count == report_count(bg, ai_opt));
        let count32: u32 = #[verifier::truncate] (count as u32);
        assert(count32 == count % 0x1_0000_0000) by (bit_vector)
            requires
                count32 == count as u32,
        ;
        let overall: u32 = (total as u32) / count32;
        if count <= u32::MAX as u128 {
            assert(overall <= 100) by (nonlinear_arith)
                requires
                    overall == total / (count32 as u64),
                    total <= 100 * count,
                    count32 == count,
                    count >= 1,
            ;
        }

        PoolHealthReport {
            main_session_health: main_health,
            background_sessions_health: bg_health,
            ai_session_health: ai_health,
            recommended_actions: actions,
            overall_score: overall,
            timestamp,
        }
    }

    /// The pool report, measured and stamped now.
    pub fn generate_report_from_metadata(
        &self,
        main_metadata: &SessionHealthMetadata,
        background_metadata: &[SessionHealthMetadata],
        ai_metadata: Option<&SessionHealthMetadata>,
    ) -> (r: PoolHealthReport)
        requires
            main_metadata.consecutive_failures <= u32::MAX / 15,
            forall|i: int|
                0 <= i < background_metadata@.len() ==> #[trigger] background_metadata@[i].consecutive_failures
                    <= u32::MAX / 15,
            ai_metadata matches Some(m) ==> m.consecutive_failures <= u32::MAX / 15,
            forall|now: u64|
                #[trigger] report_total(
                    self.settings,
                    *main_metadata,
                    background_metadata@,
                    opt_metadata(ai_metadata),
                    now,
                ) <= u32::MAX,
            report_count(background_metadata@, opt_metadata(ai_metadata)) % 0x1_0000_0000 != 0,
        ensures
            exists|now: u64|
                #[trigger] is_report_at(
                    self.settings,
                    *main_metadata,
                    background_metadata@,
                    opt_metadata(ai_metadata),
                    now,
                    r,
                ) && r.timestamp == now / 1000,
            report_count(background_metadata@, opt_metadata(ai_metadata)) <= u32::MAX ==> r.overall_score <= 100,
    {
        let now = now_ms();
        self.generate_report_at(main_metadata, background_metadata, ai_metadata, now, now / 1000)
    }

    /// Seconds between health checks.
    pub fn health_check_interval_secs(&self) -> (r: u32)
        ensures
            r == self.settings.health_check_interval_secs,
    {
        self.settings.health_check_interval_secs
    }

    /// Number of background sessions to keep healthy.
    pub fn session_warmup_count(&self) -> (r: u32)
        ensures
            r == self.settings.session_warmup_count,
    {
        self.settings.session_warmup_count
    }
}

/// Scores stay within 0 to 100, and a session at the failure threshold is
/// rebuilt unless it already expired (which is rebuilt too).
pub proof fn law_scores_bounded_and_failures_rebuild(s: PoolHealthSettings, m: SessionHealthMetadata, now: u64)
    ensures
        session_score(s, m, now) <= 100,
        m.consecutive_failures >= s.unhealthy_threshold ==> needs_rebuild(session_health(s, m, now)),
{
    lemma_score_at_most_100(s, m, now);
}


/// Idle time lowers the score: a session with no failures, aged at most half
/// the maximum age, that has been idle for `m` whole minutes scores 100 when
/// `m` is at most five, and otherwise 100 minus two points for each minute
/// beyond five, never below 0; so any idle time of six minutes or more costs
/// such a session points.  Penalties up to `u32::MAX` points are covered (the
/// penalty is counted in 32 bits).
pub proof fn law_idle_lowers_score(s: PoolHealthSettings, m: SessionHealthMetadata, now: u64)
    requires
        m.consecutive_failures == 0,
        secs_between(m.created_at_ms, now) * 2 <= s.max_session_age_minutes * 60,
        (secs_between(m.last_used_ms, now) / 60 - 5) * 2 <= u32::MAX,
    ensures
        ({
            let mins = secs_between(m.last_used_ms, now) / 60;
            &&& mins <= 5 ==> session_score(s, m, now) == 100
            &&& mins > 5 ==> session_score(s, m, now) == if 2 * (mins - 5) >= 100 {
                0
            } else {
                100 - 2 * (mins - 5)
            }
            &&& mins > 5 ==> session_score(s, m, now) < 100
        }),
{
    let mins = secs_between(m.last_used_ms, now) / 60;
    let max_age_secs = (s.max_session_age_minutes * 60) as u64;
    assert(max_age_secs == s.max_session_age_minutes * 60);
    assert(age_penalty(secs_between(m.created_at_ms, now), max_age_secs) == 0);
    if mins > 5 {
        assert(((mins - 5) * 2) as u32 == (mins - 5) * 2);
        assert(idle_penalty(secs_between(m.last_used_ms, now)) == 2 * (mins - 5));
    }
}

proof fn lemma_background_actions_members(s: PoolHealthSettings, bg: Seq<SessionHealthMetadata>, now: u64, n: nat)
    requires
        n <= bg.len(),
        bg.len() <= usize::MAX,
    ensures
        forall|k: int|
            0 <= k < background_actions(s, bg, now, n).len() ==> {
                let a = #[trigger] background_actions(s, bg, now, n)[k];
                &&& a is RebuildBackground
                &&& a->RebuildBackground_0 < n
                &&& needs_rebuild(session_health(s, bg[a->RebuildBackground_0 as int], now))
            },
        forall|j: int|
            0 <= j < n && needs_rebuild(#[trigger] session_health(s, bg[j], now)) ==> background_actions(
                s,
                bg,
                now,
                n,
            ).contains(HealthAction::RebuildBackground(j as usize)),
    decreases n,
{
    if n > 0 {
        lemma_background_actions_members(s, bg, now, (n - 1) as nat);
        let prev = background_actions(s, bg, now, (n - 1) as nat);
        let cur = background_actions(s, bg, now, n);
        assert forall|j: int|
            0 <= j < n && needs_rebuild(#[trigger] session_health(s, bg[j], now)) implies cur.contains(
            HealthAction::RebuildBackground(j as usize),
        ) by {
            if j < n - 1 {
                let k = choose|k: int| 0 <= k < prev.len() && prev[k] == HealthAction::RebuildBackground(j as usize);
                assert(cur[k] == prev[k]);
            } else {
                assert(cur[cur.len() - 1] == HealthAction::RebuildBackground(j as usize));
            }
        }
    }
}

/// What a pool report recommends: the main session is rebuilt exactly when
/// it is unhealthy or expired, and so is each background session (by its
/// index) and the helper session; a warm-up of the missing healthy
/// background sessions is asked for exactly when fewer than the warm-up
/// count are healthy; and nothing else is recommended.
#[verifier::rlimit(40)]
pub proof fn law_report_recommends(
    s: PoolHealthSettings,
    main: SessionHealthMetadata,
    bg: Seq<SessionHealthMetadata>,
    ai: Option<SessionHealthMetadata>,
    now: u64,
    i: usize,
)
    requires
        bg.len() <= usize::MAX,
    ensures
        report_actions(s, main, bg, ai, now).contains(HealthAction::RebuildMain) <==> needs_rebuild(
            session_health(s, main, now),
        ),
        report_actions(s, main, bg, ai, now).contains(HealthAction::RebuildBackground(i)) <==> (i < bg.len()
            && needs_rebuild(session_health(s, bg[i as int], now))),
        report_actions(s, main, bg, ai, now).contains(HealthAction::RebuildAi) <==> (ai matches Some(m)
            && needs_rebuild(session_health(s, m, now))),
        ({
            let h = healthy_count(s, bg, now, bg.len());
            let w = s.session_warmup_count;
            &&& h <= bg.len()
            &&& (exists|x: usize| report_actions(s, main, bg, ai, now).contains(HealthAction::WarmupSessions(x)))
                <==> h < w
            &&& h < w ==> report_actions(s, main, bg, ai, now).contains(HealthAction::WarmupSessions((w - h) as usize))
        }),
{
    let acts = report_actions(s, main, bg, ai, now);
    let main_part = if needs_rebuild(session_health(s, main, now)) {
        seq![HealthAction::RebuildMain]
    } else {
        Seq::empty()
    };
    let bga = background_actions(s, bg, now, bg.len());
    let ai_part = match ai {
        Some(m) => if needs_rebuild(session_health(s, m, now)) {
            seq![HealthAction::RebuildAi]
        } else {
            Seq::empty()
        },
        None => Seq::empty(),
    };
    let h = healthy_count(s, bg, now, bg.len());
    let w = s.session_warmup_count;
    let warm_part = if h < w {
        seq![HealthAction::WarmupSessions((w - h) as usize)]
    } else {
        Seq::empty()
    };
    lemma_background_actions_members(s, bg, now, bg.len());
    lemma_healthy_bound(s, bg, now, bg.len());
    assert(acts == main_part + bga + ai_part + warm_part);
    let m1 = main_part.len();
    let m2 = m1 + bga.len();
    let m3 = m2 + ai_part.len();
    assert forall|k: int| 0 <= k < acts.len() implies {
        &&& k < m1 ==> acts[k] == HealthAction::RebuildMain
        &&& m1 <= k < m2 ==> acts[k] == bga[k - m1]
        &&& m2 <= k < m3 ==> acts[k] == HealthAction::RebuildAi
        &&& m3 <= k ==> acts[k] == HealthAction::WarmupSessions((w - h) as usize)
    } by {
        if k < m2 {
            assert((main_part + bga)[k] == acts[k]);
        } else if k < m3 {
            assert((main_part + bga + ai_part)[k] == acts[k]);
        }
    }
    assert(acts.len() == m3 + warm_part.len());
    // The main session.
    if needs_rebuild(session_health(s, main, now)) {
        assert(acts[0] == HealthAction::RebuildMain);
    }
    if acts.contains(HealthAction::RebuildMain) {
        let k = choose|k: int| 0 <= k < acts.len() && acts[k] == HealthAction::RebuildMain;
        if m1 <= k < m2 {
            assert(bga[k - m1] is RebuildBackground);
        }
    }
    // A background session.
    if i < bg.len() && needs_rebuild(session_health(s, bg[i as int], now)) {
        assert(bga.contains(HealthAction::RebuildBackground(i)));
        let k = choose|k: int| 0 <= k < bga.len() && bga[k] == HealthAction::RebuildBackground(i);
        assert(acts[k + m1] == bga[k]);
    }
    if acts.contains(HealthAction::RebuildBackground(i)) {
        let k = choose|k: int| 0 <= k < acts.len() && acts[k] == HealthAction::RebuildBackground(i);
        assert(m1 <= k < m2);
        assert(bga[k - m1] == HealthAction::RebuildBackground(i));
    }
    // The helper session.
    if ai matches Some(m) && needs_rebuild(session_health(s, m, now)) {
        assert(acts[m2 as int] == HealthAction::RebuildAi);
    }
    if acts.contains(HealthAction::RebuildAi) {
        let k = choose|k: int| 0 <= k < acts.len() && acts[k] == HealthAction::RebuildAi;
        if m1 <= k < m2 {
            assert(bga[k - m1] is RebuildBackground);
        }
    }
    // The warm-up.
    if h < w {
        assert(acts[m3 as int] == HealthAction::WarmupSessions((w - h) as usize));
        assert(acts.contains(HealthAction::WarmupSessions((w - h) as usize)));
    }
    if exists|x: usize| acts.contains(HealthAction::WarmupSessions(x)) {
        let x = choose|x: usize| acts.contains(HealthAction::WarmupSessions(x));
        let k = choose|k: int| 0 <= k < acts.len() && acts[k] == HealthAction::WarmupSessions(x);
        if m1 <= k < m2 {
            assert(bga[k - m1] is RebuildBackground);
        }
        assert(m3 <= k);
    }
}

} // verus!
