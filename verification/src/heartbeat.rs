//! Layered connection heartbeat: TCP, SSH and application checks, failure
//! counting, and the action recommended for the number of failures.
use vstd::prelude::*;

use std::sync::atomic::AtomicBool;
use std::sync::Arc;

use crate::clock::{elapsed_between, elapsed_ms, now_ms};
use crate::models::HeartbeatSettings;
use crate::text::{str_eq, str_trim, trim_of};

verus! {

/// Layer at which a heartbeat check runs.
#[derive(Debug, Clone, Copy, PartialEq, Eq, Structural)]
pub enum HeartbeatLevel {
    /// Keepalive at the socket: fastest, least reliable.
    Tcp,
    /// SSH channel round trip.
    Ssh,
    /// A command run on the server: slowest, most reliable.
    App,
}

/// Outcome of a heartbeat check.
#[derive(Debug, Clone)]
pub enum HeartbeatResult {
    Success,
    Timeout,
    Failed(String),
    SessionDead,
}

/// Current heartbeat status.
#[derive(Debug, Clone, PartialEq, Eq)]
pub struct HeartbeatStatus {
    pub tcp_alive: bool,
    pub ssh_alive: bool,
    pub app_alive: bool,
    /// Unix time in seconds of the last successful heartbeat.
    pub last_success: Option<i64>,
    pub consecutive_failures: u32,
    /// Round trip of the last application-level check.
    pub latency_ms: Option<u32>,
}

/// The status of a connection that has not failed yet.
pub open spec fn fresh_status() -> HeartbeatStatus {
    HeartbeatStatus {
        tcp_alive: true,
        ssh_alive: true,
        app_alive: true,
        last_success: None,
        consecutive_failures: 0,
        latency_ms: None,
    }
}

impl Default for HeartbeatStatus {
    fn default() -> (r: Self)
        ensures
            r == fresh_status(),
    {
        HeartbeatStatus {
            tcp_alive: true,
            ssh_alive: true,
            app_alive: true,
            last_success: None,
            consecutive_failures: 0,
            latency_ms: None,
        }
    }
}

/// Action recommended for the number of consecutive failures.
#[derive(Debug, Clone, Copy, PartialEq, Eq, Structural)]
pub enum HeartbeatAction {
    NoAction,
    SendKeepalive,
    ReconnectBackground,
    NotifyUser,
    ForceReconnect,
}

/// The action for `failures` consecutive failures when action starts at
/// `threshold` failures.
pub open spec fn action_for(failures: u32, threshold: u32) -> HeartbeatAction {
    if failures == 0 {
        HeartbeatAction::NoAction
    } else if failures >= threshold + 2 {
        HeartbeatAction::ForceReconnect
    } else if failures >= threshold + 1 {
        HeartbeatAction::NotifyUser
    } else if failures >= threshold {
        HeartbeatAction::ReconnectBackground
    } else {
        HeartbeatAction::SendKeepalive
    }
}

/// Escalation rank of an action.
pub open spec fn action_rank(a: HeartbeatAction) -> int {
    match a {
        HeartbeatAction::NoAction => 0,
        HeartbeatAction::SendKeepalive => 1,
        HeartbeatAction::ReconnectBackground => 2,
        HeartbeatAction::NotifyUser => 3,
        HeartbeatAction::ForceReconnect => 4,
    }
}

/// Interval in seconds of the checks at `level`.
pub open spec fn level_interval(s: HeartbeatSettings, level: HeartbeatLevel) -> u32 {
    match level {
        HeartbeatLevel::Tcp => s.tcp_keepalive_interval_secs,
        HeartbeatLevel::Ssh => s.ssh_keepalive_interval_secs,
        HeartbeatLevel::App => s.app_heartbeat_interval_secs,
    }
}

/// Reads a shutdown flag.  `AtomicBool::load` may see another thread's
/// write, so its value is not determined here.
fn flag_is_set(signal: &Arc<AtomicBool>) -> (r: bool) {
    signal.load(std::sync::atomic::Ordering::Relaxed)
}

/// Layered heartbeat state.  Check times are milliseconds on the clock of
/// [`crate::clock`].
pub struct HeartbeatManager {
    pub settings: HeartbeatSettings,
    pub status: HeartbeatStatus,
    pub last_tcp_check_ms: u64,
    pub last_ssh_check_ms: u64,
    pub last_app_check_ms: u64,
    pub shutdown_signal: Option<Arc<AtomicBool>>,
}

impl HeartbeatManager {
    /// Time of the last check at `level`.
    pub open spec fn last_check(&self, level: HeartbeatLevel) -> u64 {
        match level {
            HeartbeatLevel::Tcp => self.last_tcp_check_ms,
            HeartbeatLevel::Ssh => self.last_ssh_check_ms,
            HeartbeatLevel::App => self.last_app_check_ms,
        }
    }

    /// A check at `level` is due at `now`.
    pub open spec fn check_due(&self, level: HeartbeatLevel, now: u64) -> bool {
        elapsed_between(self.last_check(level), now) >= level_interval(self.settings, level) as nat * 1000
    }

    /// The action recommended in this state.
    pub open spec fn spec_action(&self) -> HeartbeatAction {
        action_for(self.status.consecutive_failures, self.settings.failed_heartbeats_before_action)
    }

    /// A manager with fresh status whose checks are all counted from now.
    pub fn new(settings: HeartbeatSettings) -> (r: Self)
        ensures
            r.settings == settings,
            r.status == fresh_status(),
            r.last_ssh_check_ms == r.last_tcp_check_ms,
            r.last_app_check_ms == r.last_tcp_check_ms,
            r.shutdown_signal is None,
    {
        Self::new_at(settings, now_ms())
    }

    /// A manager with fresh status whose checks are all counted from `now`.
    pub fn new_at(settings: HeartbeatSettings, now: u64) -> (r: Self)
        ensures
            r.settings == settings,
            r.status == fresh_status(),
            r.last_tcp_check_ms == now,
            r.last_ssh_check_ms == now,
            r.last_app_check_ms == now,
            r.shutdown_signal is None,
    {
        HeartbeatManager {
            settings,
            status: HeartbeatStatus::default(),
            last_tcp_check_ms: now,
            last_ssh_check_ms: now,
            last_app_check_ms: now,
            shutdown_signal: None,
        }
    }

    /// Like [`Self::new`], with a flag that stops all checks once set.
    pub fn with_shutdown(settings: HeartbeatSettings, shutdown_signal: Arc<AtomicBool>) -> (r: Self)
        ensures
            r.settings == settings,
            r.status == fresh_status(),
            r.last_ssh_check_ms == r.last_tcp_check_ms,
            r.last_app_check_ms == r.last_tcp_check_ms,
            r.shutdown_signal == Some(shutdown_signal),
    {
        let now = now_ms();
        HeartbeatManager {
            settings,
            status: HeartbeatStatus::default(),
            last_tcp_check_ms: now,
            last_ssh_check_ms: now,
            last_app_check_ms: now,
            shutdown_signal: Some(shutdown_signal),
        }
    }

    /// The settings.
    pub fn settings(&self) -> (r: &HeartbeatSettings)
        ensures
            *r == self.settings,
    {
        &self.settings
    }

    /// Replaces the settings.
    pub fn update_settings(&mut self, settings: HeartbeatSettings)
        ensures
            final(self).settings == settings,
            final(self).status == old(self).status,
            final(self).last_tcp_check_ms == old(self).last_tcp_check_ms,
            final(self).last_ssh_check_ms == old(self).last_ssh_check_ms,
            final(self).last_app_check_ms == old(self).last_app_check_ms,
            final(self).shutdown_signal == old(self).shutdown_signal,
    {
        self.settings = settings;
    }

    /// Whether shutdown was requested (reads the flag, if any).
    pub fn shutdown_requested(&self) -> (r: bool)
        ensures
            self.shutdown_signal is None ==> !r,
    {
        match &self.shutdown_signal {
            Some(signal) => flag_is_set(signal),
            None => false,
        }
    }

    /// Whether a check at `level` is due now and no shutdown was requested.
    pub fn should_check(&self, level: HeartbeatLevel) -> (r: bool)
        ensures
            r ==> exists|now: u64| #[trigger] self.check_due(level, now),
            self.shutdown_signal is None ==> exists|now: u64| r == #[trigger] self.check_due(level, now),
    {
        let shutdown = self.shutdown_requested();
        let now = now_ms();
        self.should_check_at(level, now, shutdown)
    }

    /// Whether a check at `level` is due at `now`: no shutdown, and at least
    /// the level's interval has passed since its last check.
    pub fn should_check_at(&self, level: HeartbeatLevel, now: u64, shutdown: bool) -> (r: bool)
        ensures
            r == (!shutdown && self.check_due(level, now)),
    {
        if shutdown {
            return false;
        }
        let (last, interval) = match level {
            HeartbeatLevel::Tcp => (self.last_tcp_check_ms, self.settings.tcp_keepalive_interval_secs),
            HeartbeatLevel::Ssh => (self.last_ssh_check_ms, self.settings.ssh_keepalive_interval_secs),
            HeartbeatLevel::App => (self.last_app_check_ms, self.settings.app_heartbeat_interval_secs),
        };
        elapsed_ms(last, now) >= (interval as u64) * 1000
    }

    /// Records the outcome of a TCP check made at `now`; a dead TCP layer
    /// turns the round's result into a failure.
    pub fn after_tcp_check(&mut self, alive: bool, now: u64, result: HeartbeatResult) -> (r: HeartbeatResult)
        ensures
            final(self).status == (HeartbeatStatus { tcp_alive: alive, ..old(self).status }),
            final(self).last_tcp_check_ms == now,
            final(self).last_ssh_check_ms == old(self).last_ssh_check_ms,
            final(self).last_app_check_ms == old(self).last_app_check_ms,
            final(self).settings == old(self).settings,
            final(self).shutdown_signal == old(self).shutdown_signal,
            alive ==> r == result,
            !alive ==> (r matches HeartbeatResult::Failed(m) && m@ == tcp_failure_text()),
    {
        self.status.tcp_alive = alive;
        self.last_tcp_check_ms = now;
        if alive {
            result
        } else {
            HeartbeatResult::Failed(String::from_str("TCP layer not responding"))
        }
    }

    /// Whether the SSH check is due at `now`: due by its interval and the TCP
    /// layer is alive.
    pub fn ssh_check_due(&self, now: u64, shutdown: bool) -> (r: bool)
        ensures
            r == (!shutdown && self.check_due(HeartbeatLevel::Ssh, now) && self.status.tcp_alive),
    {
        self.should_check_at(HeartbeatLevel::Ssh, now, shutdown) && self.status.tcp_alive
    }

    /// Records the outcome of an SSH check made at `now`.
    pub fn after_ssh_check(&mut self, outcome: HeartbeatResult, now: u64, result: HeartbeatResult) -> (r: HeartbeatResult)
        ensures
            final(self).status == (HeartbeatStatus { ssh_alive: outcome is Success, ..old(self).status }),
            final(self).last_ssh_check_ms == now,
            final(self).last_tcp_check_ms == old(self).last_tcp_check_ms,
            final(self).last_app_check_ms == old(self).last_app_check_ms,
            final(self).settings == old(self).settings,
            final(self).shutdown_signal == old(self).shutdown_signal,
            r == (if outcome is Success { result } else { outcome }),
    {
        let r = match outcome {
            HeartbeatResult::Success => {
                self.status.ssh_alive = true;
                result
            },
            other => {
                self.status.ssh_alive = false;
                other
            },
        };
        self.last_ssh_check_ms = now;
        r
    }

    /// Whether the application check is due at `now`: due by its interval
    /// and the SSH layer is alive.
    pub fn app_check_due(&self, now: u64, shutdown: bool) -> (r: bool)
        ensures
            r == (!shutdown && self.check_due(HeartbeatLevel::App, now) && self.status.ssh_alive),
    {
        self.should_check_at(HeartbeatLevel::App, now, shutdown) && self.status.ssh_alive
    }

    /// Records the outcome of an application check made at `now`, with the
    /// round-trip latency when the command's output was read to its end.
    pub fn after_app_check(
        &mut self,
        outcome: HeartbeatResult,
        latency_ms: Option<u32>,
        now: u64,
        result: HeartbeatResult,
    ) -> (r: HeartbeatResult)
        ensures
            final(self).status == (HeartbeatStatus {
                app_alive: outcome is Success,
                latency_ms: if latency_ms is Some { latency_ms } else { old(self).status.latency_ms },
                ..old(self).status
            }),
            final(self).last_app_check_ms == now,
            final(self).last_tcp_check_ms == old(self).last_tcp_check_ms,
            final(self).last_ssh_check_ms == old(self).last_ssh_check_ms,
            final(self).settings == old(self).settings,
            final(self).shutdown_signal == old(self).shutdown_signal,
            r == (if outcome is Success { result } else { outcome }),
    {
        if latency_ms.is_some() {
            self.status.latency_ms = latency_ms;
        }
        let r = match outcome {
            HeartbeatResult::Success => {
                self.status.app_alive = true;
                result
            },
            other => {
                self.status.app_alive = false;
                other
            },
        };
        self.last_app_check_ms = now;
        r
    }

    /// Closes a round of checks: success clears the failure count and
    /// stamps the success time; a dead session counts a failure and marks
    /// every layer dead; any other result counts a failure.
    pub fn finish_round(&mut self, result: &HeartbeatResult, unix_secs: i64)
        requires
            old(self).status.consecutive_failures < u32::MAX,
        ensures
            final(self).settings == old(self).settings,
            final(self).last_tcp_check_ms == old(self).last_tcp_check_ms,
            final(self).last_ssh_check_ms == old(self).last_ssh_check_ms,
            final(self).last_app_check_ms == old(self).last_app_check_ms,
            final(self).shutdown_signal == old(self).shutdown_signal,
            final(self).status == (match *result {
                HeartbeatResult::Success => HeartbeatStatus {
                    consecutive_failures: 0,
                    last_success: Some(unix_secs),
                    ..old(self).status
                },
                HeartbeatResult::SessionDead => HeartbeatStatus {
                    consecutive_failures: (old(self).status.consecutive_failures + 1) as u32,
                    tcp_alive: false,
                    ssh_alive: false,
                    app_alive: false,
                    ..old(self).status
                },
                _ => HeartbeatStatus {
                    consecutive_failures: (old(self).status.consecutive_failures + 1) as u32,
                    ..old(self).status
                },
            }),
    {
        match result {
            HeartbeatResult::Success => {
                self.status.consecutive_failures = 0;
                self.status.last_success = Some(unix_secs);
            },
            HeartbeatResult::SessionDead => {
                self.status.consecutive_failures = self.status.consecutive_failures + 1;
                self.status.tcp_alive = false;
                self.status.ssh_alive = false;
                self.status.app_alive = false;
            },
            _ => {
                self.status.consecutive_failures = self.status.consecutive_failures + 1;
            },
        }
    }

    /// The action recommended for the current failure count: none without
    /// failures, a keepalive below the threshold, background reconnection at
    /// the threshold, a user notification one above and a forced
    /// reconnection from two above.
    pub fn get_recommended_action(&self) -> (r: HeartbeatAction)
        requires
            self.settings.failed_heartbeats_before_action <= u32::MAX - 2,
        ensures
            r == self.spec_action(),
    {
        let failures = self.status.consecutive_failures;
        let threshold = self.settings.failed_heartbeats_before_action;
        if failures == 0 {
            return HeartbeatAction::NoAction;
        }
        if failures >= threshold + 2 {
            HeartbeatAction::ForceReconnect
        } else if failures >= threshold + 1 {
            HeartbeatAction::NotifyUser
        } else if failures >= threshold {
            HeartbeatAction::ReconnectBackground
        } else {
            HeartbeatAction::SendKeepalive
        }
    }

    /// The current status.
    pub fn get_status(&self) -> (r: &HeartbeatStatus)
        ensures
            *r == self.status,
    {
        &self.status
    }

    /// The current status, for changing it in place.
    pub fn get_status_mut(&mut self) -> (r: &mut HeartbeatStatus)
        ensures
            *r == old(self).status,
            final(self).status == *final(r),
            final(self).settings == old(self).settings,
            final(self).last_tcp_check_ms == old(self).last_tcp_check_ms,
            final(self).last_ssh_check_ms == old(self).last_ssh_check_ms,
            final(self).last_app_check_ms == old(self).last_app_check_ms,
            final(self).shutdown_signal == old(self).shutdown_signal,
    {
        &mut self.status
    }

    /// Restores a fresh status and restarts all check intervals now.
    pub fn reset(&mut self)
        ensures
            final(self).status == fresh_status(),
            final(self).last_ssh_check_ms == final(self).last_tcp_check_ms,
            final(self).last_app_check_ms == final(self).last_tcp_check_ms,
            final(self).settings == old(self).settings,
            final(self).shutdown_signal == old(self).shutdown_signal,
    {
        let now = now_ms();
        self.reset_at(now);
    }

    /// Restores a fresh status and restarts all check intervals at `now`.
    pub fn reset_at(&mut self, now: u64)
        ensures
            final(self).status == fresh_status(),
            final(self).last_tcp_check_ms == now,
            final(self).last_ssh_check_ms == now,
            final(self).last_app_check_ms == now,
            final(self).settings == old(self).settings,
            final(self).shutdown_signal == old(self).shutdown_signal,
    {
        self.status = HeartbeatStatus::default();
        self.last_tcp_check_ms = now;
        self.last_ssh_check_ms = now;
        self.last_app_check_ms = now;
    }

    /// Healthy while the TCP and SSH layers are alive.
    pub fn is_healthy(&self) -> (r: bool)
        ensures
            r == (self.status.tcp_alive && self.status.ssh_alive),
    {
        self.status.tcp_alive && self.status.ssh_alive
    }

    /// Half the shortest check interval, in whole seconds: the main loop's
    /// sleep between polls.
    pub fn get_min_check_interval(&self) -> (r: u64)
        ensures
            r == min3(
                self.settings.ssh_keepalive_interval_secs,
                self.settings.app_heartbeat_interval_secs,
                self.settings.tcp_keepalive_interval_secs,
            ) / 2,
    {
        let a = self.settings.ssh_keepalive_interval_secs;
        let b = self.settings.app_heartbeat_interval_secs;
        let c = self.settings.tcp_keepalive_interval_secs;
        let m1 = if a < b { a } else { b };
        let m = if m1 < c { m1 } else { c };
        (m as u64) / 2
    }
}

/// Smallest of three numbers.
pub open spec fn min3(a: u32, b: u32, c: u32) -> u32 {
    let m = if a < b { a } else { b };
    if m < c { m } else { c }
}

/// Text of the failure reported when the TCP layer does not respond.
pub open spec fn tcp_failure_text() -> Seq<char> {
    "TCP layer not responding"@
}

/// Judges the output of the application-level `echo hb`: success when the
/// trimmed output is exactly `hb`, else a failure quoting it.
pub fn app_response_outcome(response: &str) -> (r: HeartbeatResult)
    ensures
        trim_of(response@) == "hb"@ ==> r is Success,
        trim_of(response@) != "hb"@ ==> (r matches HeartbeatResult::Failed(m) && m@
            == "Unexpected response: "@ + trim_of(response@)),
{
    let trimmed = str_trim(response);
    if str_eq(trimmed, "hb") {
        HeartbeatResult::Success
    } else {
        HeartbeatResult::Failed(String::from_str("Unexpected response: ").concat(trimmed))
    }
}

/// Escalation is monotone: more consecutive failures never recommend a
/// milder action, and the action is `None` exactly when nothing failed.
pub proof fn law_action_escalates(f1: u32, f2: u32, threshold: u32)
    requires
        f1 <= f2,
        threshold <= u32::MAX - 2,
    ensures
        action_rank(action_for(f1, threshold)) <= action_rank(action_for(f2, threshold)),
        action_for(f1, threshold) == HeartbeatAction::NoAction <==> f1 == 0,
{
}

} // verus!
