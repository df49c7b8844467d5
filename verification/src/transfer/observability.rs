//! Counters and a bounded event log for the transfer subsystem.
use vstd::prelude::*;

use crate::clock::now_ms;
use crate::text::str_eq;
use crate::transfer::types::{TransferOperation, TransferStatus};

verus! {

/// Counters over all transfers.  Counters that the subsystem keeps in
/// atomics wrap around as atomic additions do.
#[derive(Debug, Clone, Copy, PartialEq, Eq, Structural)]
pub struct TransferMetrics {
    pub total_transfers: usize,
    pub active_transfers: usize,
    pub completed_transfers: usize,
    pub cancelled_transfers: usize,
    pub total_bytes_transferred: u64,
    /// Speed of the last completed transfer, bytes per second.
    pub current_bps: u64,
    /// Average speed over all completed transfers, bytes per second.
    pub avg_bps: u64,
    /// Highest speed of a completed transfer, bytes per second.
    pub peak_bps: u64,
    pub total_transfer_time_ms: u64,
    pub retry_attempts: usize,
    pub connection_errors: usize,
    pub permission_errors: usize,
    pub timeout_errors: usize,
}

/// Metrics with every counter at zero.
pub open spec fn zero_metrics() -> TransferMetrics {
    TransferMetrics {
        total_transfers: 0,
        active_transfers: 0,
        completed_transfers: 0,
        cancelled_transfers: 0,
        total_bytes_transferred: 0,
        current_bps: 0,
        avg_bps: 0,
        peak_bps: 0,
        total_transfer_time_ms: 0,
        retry_attempts: 0,
        connection_errors: 0,
        permission_errors: 0,
        timeout_errors: 0,
    }
}

/// Kind of failure counted for an error category name.
pub enum FailureCategory {
    Connection,
    Permission,
    Timeout,
    Other,
}

/// The category of an error category name: "connection" and "network"
/// count as connection errors, "permission" and "auth" as permission errors,
/// "timeout" as a timeout.
pub open spec fn failure_category(name: Seq<char>) -> FailureCategory {
    if name == "connection"@ || name == "network"@ {
        FailureCategory::Connection
    } else if name == "permission"@ || name == "auth"@ {
        FailureCategory::Permission
    } else if name == "timeout"@ {
        FailureCategory::Timeout
    } else {
        FailureCategory::Other
    }
}

/// Speed in bytes per second of `bytes` moved in `ms` milliseconds; 0 for
/// no time.
pub open spec fn speed_bps(bytes: int, ms: int) -> int {
    if ms > 0 {
        bytes * 1000 / ms
    } else {
        0
    }
}

/// Health figures of the transfer subsystem.  Pool usage is given in
/// thousandths of the pool.
#[derive(Debug, Clone, Copy, PartialEq, Eq, Structural)]
pub struct TransferHealth {
    pub active_transfers: usize,
    pub stuck_transfers: usize,
    pub failed_transfers: usize,
    pub avg_speed_bps: u64,
    pub pool_usage_permille: u64,
}

impl Default for TransferHealth {
    /// No transfer, no failure, no speed, an unused pool.
    fn default() -> (r: Self)
        ensures
            r == (TransferHealth {
                active_transfers: 0,
                stuck_transfers: 0,
                failed_transfers: 0,
                avg_speed_bps: 0,
                pool_usage_permille: 0,
            }),
    {
        TransferHealth {
            active_transfers: 0,
            stuck_transfers: 0,
            failed_transfers: 0,
            avg_speed_bps: 0,
            pool_usage_permille: 0,
        }
    }
}

impl Default for TransferMetrics {
    fn default() -> (r: Self)
        ensures
            r == zero_metrics(),
    {
        TransferMetrics {
            total_transfers: 0,
            active_transfers: 0,
            completed_transfers: 0,
            cancelled_transfers: 0,
            total_bytes_transferred: 0,
            current_bps: 0,
            avg_bps: 0,
            peak_bps: 0,
            total_transfer_time_ms: 0,
            retry_attempts: 0,
            connection_errors: 0,
            permission_errors: 0,
            timeout_errors: 0,
        }
    }
}

impl TransferMetrics {
    /// A transfer started: one more in total and one more active.
    pub fn record_transfer_start(&mut self)
        ensures
            *final(self) == (TransferMetrics {
                total_transfers: old(self).total_transfers.wrapping_add(1),
                active_transfers: old(self).active_transfers.wrapping_add(1),
                ..*old(self)
            }),
    {
        self.total_transfers = self.total_transfers.wrapping_add(1);
        self.active_transfers = self.active_transfers.wrapping_add(1);
    }

    /// A transfer of `bytes` completed in `duration_ms`: the byte and time
    /// totals grow, the average speed is taken over all completed transfers,
    /// the current speed is this transfer's and the peak keeps the highest.
    pub fn record_transfer_complete(&mut self, bytes: u64, duration_ms: u64)
        requires
            (old(self).total_bytes_transferred + bytes) * 1000 <= u64::MAX,
            old(self).total_transfer_time_ms + duration_ms <= u64::MAX,
        ensures
            ({
                let total_bytes = old(self).total_bytes_transferred + bytes;
                let total_ms = old(self).total_transfer_time_ms + duration_ms;
                let current = speed_bps(bytes as int, duration_ms as int);
                *final(self) == TransferMetrics {
                    active_transfers: old(self).active_transfers.wrapping_sub(1),
                    completed_transfers: old(self).completed_transfers.wrapping_add(1),
                    total_bytes_transferred: total_bytes as u64,
                    total_transfer_time_ms: total_ms as u64,
                    avg_bps: if total_ms > 0 {
                        speed_bps(total_bytes, total_ms) as u64
                    } else {
                        old(self).avg_bps
                    },
                    current_bps: current as u64,
                    peak_bps: if current > old(self).peak_bps {
                        current as u64
                    } else {
                        old(self).peak_bps
                    },
                    ..*old(self)
                }
            }),
    {
        self.active_transfers = self.active_transfers.wrapping_sub(1);
        self.completed_transfers = self.completed_transfers.wrapping_add(1);
        self.total_bytes_transferred = self.total_bytes_transferred + bytes;
        self.total_transfer_time_ms = self.total_transfer_time_ms + duration_ms;
        let total_bytes = self.total_bytes_transferred;
        let total_time_ms = self.total_transfer_time_ms;
        if total_time_ms > 0 {
            self.avg_bps = (total_bytes * 1000) / total_time_ms;
        }
        let current_bps = if duration_ms > 0 {
            (bytes * 1000) / duration_ms
        } else {
            0
        };
        if current_bps > self.peak_bps {
            self.peak_bps = current_bps;
        }
        self.current_bps = current_bps;
    }

    /// A transfer failed with an error of category `error_type`; the
    /// category's counter grows when it is one of the known names.
    pub fn record_transfer_failed(&mut self, error_type: &str)
        ensures
            *final(self) == (match failure_category(error_type@) {
                FailureCategory::Connection => TransferMetrics {
                    active_transfers: old(self).active_transfers.wrapping_sub(1),
                    connection_errors: old(self).connection_errors.wrapping_add(1),
                    ..*old(self)
                },
                FailureCategory::Permission => TransferMetrics {
                    active_transfers: old(self).active_transfers.wrapping_sub(1),
                    permission_errors: old(self).permission_errors.wrapping_add(1),
                    ..*old(self)
                },
                FailureCategory::Timeout => TransferMetrics {
                    active_transfers: old(self).active_transfers.wrapping_sub(1),
                    timeout_errors: old(self).timeout_errors.wrapping_add(1),
                    ..*old(self)
                },
                FailureCategory::Other => TransferMetrics {
                    active_transfers: old(self).active_transfers.wrapping_sub(1),
                    ..*old(self)
                },
            }),
    {
        self.active_transfers = self.active_transfers.wrapping_sub(1);
        if str_eq(error_type, "connection") || str_eq(error_type, "network") {
            self.connection_errors = self.connection_errors.wrapping_add(1);
        } else if str_eq(error_type, "permission") || str_eq(error_type, "auth") {
            self.permission_errors = self.permission_errors.wrapping_add(1);
        } else if str_eq(error_type, "timeout") {
            self.timeout_errors = self.timeout_errors.wrapping_add(1);
        }
    }

    /// A transfer was cancelled.
    pub fn record_transfer_cancelled(&mut self)
        ensures
            *final(self) == (TransferMetrics {
                active_transfers: old(self).active_transfers.wrapping_sub(1),
                cancelled_transfers: old(self).cancelled_transfers.wrapping_add(1),
                ..*old(self)
            }),
    {
        self.active_transfers = self.active_transfers.wrapping_sub(1);
        self.cancelled_transfers = self.cancelled_transfers.wrapping_add(1);
    }

    /// A retry was attempted.
    pub fn record_retry_attempt(&mut self)
        ensures
            *final(self) == (TransferMetrics {
                retry_attempts: old(self).retry_attempts.wrapping_add(1),
                ..*old(self)
            }),
    {
        self.retry_attempts = self.retry_attempts.wrapping_add(1);
    }

    /// Health figures of these metrics: every counted error is a failed
    /// transfer, and counts as stuck while transfers are active.
    pub open spec fn spec_health(&self) -> TransferHealth {
        let failed = self.connection_errors + self.permission_errors + self.timeout_errors;
        TransferHealth {
            active_transfers: self.active_transfers,
            stuck_transfers: if self.active_transfers > 0 { failed as usize } else { 0 },
            failed_transfers: failed as usize,
            avg_speed_bps: self.avg_bps,
            pool_usage_permille: 0,
        }
    }

    /// The health figures: failures are the counted errors of all three
    /// categories, and they all count as stuck while a transfer is active.
    /// Pool usage is left at zero; the pool fills it in.
    pub fn get_health(&self) -> (r: TransferHealth)
        requires
            self.connection_errors + self.permission_errors + self.timeout_errors <= usize::MAX,
        ensures
            r == self.spec_health(),
    {
        let active = self.active_transfers;
        let failed = self.connection_errors + self.permission_errors + self.timeout_errors;
        TransferHealth {
            active_transfers: active,
            stuck_transfers: if active > 0 { failed } else { 0 },
            failed_transfers: failed,
            avg_speed_bps: self.avg_bps,
            pool_usage_permille: 0,
        }
    }

    /// Every counter back to zero.
    pub fn reset(&mut self)
        ensures
            *final(self) == zero_metrics(),
    {
        *self = TransferMetrics::default();
    }
}

/// Severity of a logged event, from the least to the most severe.
#[derive(Debug, Clone, Copy, PartialEq, Eq, Structural)]
pub enum LogLevel {
    Debug,
    Info,
    Warning,
    Error,
    Critical,
}

/// Position of a level in the severity order.
pub open spec fn level_rank(l: LogLevel) -> nat {
    match l {
        LogLevel::Debug => 0,
        LogLevel::Info => 1,
        LogLevel::Warning => 2,
        LogLevel::Error => 3,
        LogLevel::Critical => 4,
    }
}

/// Progress figures attached to a logged event.
#[derive(Debug, Clone, Copy, PartialEq, Eq, Structural)]
pub struct ProgressInfo {
    pub transferred_bytes: u64,
    pub total_bytes: u64,
    pub speed_bps: u64,
}

/// One logged event.  The timestamp is in seconds since the Unix epoch.
#[derive(Debug)]
pub struct TransferLogEntry {
    pub timestamp: u64,
    pub transfer_id: String,
    pub level: LogLevel,
    pub message: String,
    pub operation: Option<TransferOperation>,
    pub status: Option<TransferStatus>,
    pub progress: Option<ProgressInfo>,
}

impl Clone for TransferLogEntry {
    fn clone(&self) -> (r: Self)
        ensures
            r == *self,
    {
        TransferLogEntry {
            timestamp: self.timestamp,
            transfer_id: self.transfer_id.clone(),
            level: self.level,
            message: self.message.clone(),
            operation: self.operation,
            status: self.status,
            progress: self.progress,
        }
    }
}

/// What a log entry holds, with its strings as character sequences.
pub struct LogEntryView {
    pub timestamp: u64,
    pub transfer_id: Seq<char>,
    pub level: LogLevel,
    pub message: Seq<char>,
    pub operation: Option<TransferOperation>,
    pub status: Option<TransferStatus>,
    pub progress: Option<ProgressInfo>,
}

impl View for TransferLogEntry {
    type V = LogEntryView;

    open spec fn view(&self) -> LogEntryView {
        LogEntryView {
            timestamp: self.timestamp,
            transfer_id: self.transfer_id@,
            level: self.level,
            message: self.message@,
            operation: self.operation,
            status: self.status,
            progress: self.progress,
        }
    }
}

/// The views of a sequence of entries.
pub open spec fn views(s: Seq<TransferLogEntry>) -> Seq<LogEntryView> {
    s.map_values(|e: TransferLogEntry| e@)
}

/// The last `max` entries of `s` (all of them when there are fewer).
pub open spec fn keep_newest<T>(s: Seq<T>, max: nat) -> Seq<T> {
    if s.len() > max {
        s.subrange(s.len() - max, s.len() as int)
    } else {
        s
    }
}

/// The entries of `s` logged for transfer `id`, in order.
pub open spec fn entries_for(s: Seq<TransferLogEntry>, id: Seq<char>) -> Seq<TransferLogEntry>
    decreases s.len(),
{
    if s.len() == 0 {
        s
    } else {
        let rest = entries_for(s.drop_last(), id);
        if s.last().transfer_id@ == id {
            rest.push(s.last())
        } else {
            rest
        }
    }
}

/// Number of entries of `s` at error or critical level.
pub open spec fn error_entries(s: Seq<TransferLogEntry>) -> nat
    decreases s.len(),
{
    if s.len() == 0 {
        0
    } else {
        error_entries(s.drop_last()) + if level_rank(s.last().level) >= 3 { 1nat } else { 0nat }
    }
}

/// Number of entries of `s` at warning level.
pub open spec fn warning_entries(s: Seq<TransferLogEntry>) -> nat
    decreases s.len(),
{
    if s.len() == 0 {
        0
    } else {
        warning_entries(s.drop_last()) + if s.last().level == LogLevel::Warning { 1nat } else { 0nat }
    }
}

/// Health of the transfer subsystem with counts over the recent log.
#[derive(Debug, Clone, Copy)]
pub struct HealthSummary {
    pub health: TransferHealth,
    pub error_count: usize,
    pub warning_count: usize,
    /// Seconds since the Unix epoch when the summary was made.
    pub uptime_seconds: u64,
}

/// Metrics and a bounded log of transfer events.
pub struct ObservabilityManager {
    pub metrics: TransferMetrics,
    /// Logged events, oldest first.
    pub logs: Vec<TransferLogEntry>,
    /// Most entries kept; older ones are dropped first.
    pub max_logs: usize,
    pub logging_enabled: bool,
    /// Least severe level that is logged.
    pub log_level_filter: LogLevel,
}

impl ObservabilityManager {
    /// A manager keeping at most `max_logs` entries, logging every level.
    pub fn new(max_logs: usize) -> (r: Self)
        ensures
            r.metrics == zero_metrics(),
            r.logs@ == Seq::<TransferLogEntry>::empty(),
            r.max_logs == max_logs,
            r.logging_enabled,
            r.log_level_filter == LogLevel::Debug,
    {
        ObservabilityManager {
            metrics: TransferMetrics::default(),
            logs: Vec::new(),
            max_logs,
            logging_enabled: true,
            log_level_filter: LogLevel::Debug,
        }
    }

    /// The metrics.
    pub fn metrics(&self) -> (r: &TransferMetrics)
        ensures
            *r == self.metrics,
    {
        &self.metrics
    }

    /// Whether an event at `level` passes the filter `filter`: it does when
    /// it is at least as severe.
    fn should_log(&self, level: &LogLevel, filter: &LogLevel) -> (r: bool)
        ensures
            r == (level_rank(*level) >= level_rank(*filter)),
    {
        match (level, filter) {
            (LogLevel::Debug, LogLevel::Debug) => true,
            (LogLevel::Info, LogLevel::Debug | LogLevel::Info) => true,
            (LogLevel::Warning, LogLevel::Debug | LogLevel::Info | LogLevel::Warning) => true,
            (LogLevel::Error, LogLevel::Debug | LogLevel::Info | LogLevel::Warning | LogLevel::Error) => true,
            (LogLevel::Critical, _) => true,
            _ => false,
        }
    }

    /// Logs an event stamped `timestamp`: when logging is enabled and the
    /// level passes the filter, the entry is appended and the oldest entries
    /// beyond the limit are dropped; otherwise nothing changes.
    pub fn log_event_at(
        &mut self,
        transfer_id: &str,
        level: LogLevel,
        message: String,
        operation: Option<TransferOperation>,
        status: Option<TransferStatus>,
        progress: Option<ProgressInfo>,
        timestamp: u64,
    )
        ensures
            final(self).metrics == old(self).metrics,
            final(self).max_logs == old(self).max_logs,
            final(self).logging_enabled == old(self).logging_enabled,
            final(self).log_level_filter == old(self).log_level_filter,
            !(old(self).logging_enabled && level_rank(level) >= level_rank(old(self).log_level_filter))
                ==> final(self).logs@ == old(self).logs@,
            (old(self).logging_enabled && level_rank(level) >= level_rank(old(self).log_level_filter))
                ==> views(final(self).logs@) == keep_newest(
                views(old(self).logs@).push(
                    LogEntryView {
                        timestamp,
                        transfer_id: transfer_id@,
                        level,
                        message: message@,
                        operation,
                        status,
                        progress,
                    },
                ),
                old(self).max_logs as nat,
            ),
    {
        if !self.logging_enabled {
            return;
        }
        if !self.should_log(&level, &self.log_level_filter) {
            return;
        }
        let id = String::from_str(transfer_id);
        let entry = TransferLogEntry { timestamp, transfer_id: id, level, message, operation, status, progress };
        let ghost entry_view = entry@;
        let ghost pushed = self.logs@.push(entry);
        self.logs.push(entry);
        let ghost start: int = 0;
        while self.logs.len() > self.max_logs
            invariant
                self.metrics == old(self).metrics,
                self.max_logs == old(self).max_logs,
                self.logging_enabled == old(self).logging_enabled,
                self.log_level_filter == old(self).log_level_filter,
                0 <= start <= pushed.len(),
                self.logs@ == pushed.subrange(start, pushed.len() as int),
                start > 0 ==> pushed.len() - start >= self.max_logs,
            decreases self.logs@.len(),
        {
            self.logs.remove(0);
            proof {
                start = start + 1;
            }
        }
        proof {
            if pushed.len() > self.max_logs {
                assert(start == pushed.len() - self.max_logs);
            } else {
                assert(start == 0);
            }
            assert(self.logs@ =~= keep_newest(pushed, self.max_logs as nat));
            assert(views(self.logs@) =~= keep_newest(views(old(self).logs@).push(entry_view), self.max_logs as nat));
        }
    }

    /// Logs an event stamped with the current time.
    pub fn log_event(
        &mut self,
        transfer_id: &str,
        level: LogLevel,
        message: String,
        operation: Option<TransferOperation>,
        status: Option<TransferStatus>,
        progress: Option<ProgressInfo>,
    )
        ensures
            final(self).metrics == old(self).metrics,
            final(self).max_logs == old(self).max_logs,
            !(old(self).logging_enabled && level_rank(level) >= level_rank(old(self).log_level_filter))
                ==> final(self).logs@ == old(self).logs@,
            (old(self).logging_enabled && level_rank(level) >= level_rank(old(self).log_level_filter))
                ==> views(final(self).logs@) == keep_newest(
                views(old(self).logs@).push(
                    LogEntryView {
                        timestamp: views(final(self).logs@).last().timestamp,
                        transfer_id: transfer_id@,
                        level,
                        message: message@,
                        operation,
                        status,
                        progress,
                    },
                ),
                old(self).max_logs as nat,
            ),
    {
        let now = now_ms();
        self.log_event_at(transfer_id, level, message, operation, status, progress, now / 1000);
    }

    /// The last `limit` entries, or all of them without a limit.
    pub fn get_recent_logs(&self, limit: Option<usize>) -> (r: Vec<TransferLogEntry>)
        ensures
            r@ == (match limit {
                Some(n) => keep_newest(self.logs@, n as nat),
                None => self.logs@,
            }),
    {
        let len = self.logs.len();
        let start: usize = match limit {
            Some(n) => len.saturating_sub(n),
            None => 0,
        };
        let mut out: Vec<TransferLogEntry> = Vec::new();
        let mut i: usize = start;
        while i < len
            invariant
                len == self.logs@.len(),
                start <= i <= len,
                out@ == self.logs@.subrange(start as int, i as int),
            decreases len - i,
        {
            out.push(self.logs[i].clone());
            proof {
                assert(self.logs@.subrange(start as int, i + 1) =~= self.logs@.subrange(start as int, i as int).push(self.logs@[i as int]));
            }
            i = i + 1;
        }
        proof {
            assert(self.logs@.subrange(0, len as int) =~= self.logs@);
        }
        out
    }

    /// The entries logged for transfer `transfer_id`, in order.
    pub fn get_transfer_logs(&self, transfer_id: &str) -> (r: Vec<TransferLogEntry>)
        ensures
            r@ == entries_for(self.logs@, transfer_id@),
    {
        let mut out: Vec<TransferLogEntry> = Vec::new();
        let mut i: usize = 0;
        while i < self.logs.len()
            invariant
                i <= self.logs@.len(),
                out@ == entries_for(self.logs@.take(i as int), transfer_id@),
            decreases self.logs@.len() - i,
        {
            proof {
                assert(self.logs@.take(i + 1).drop_last() =~= self.logs@.take(i as int));
            }
            if str_eq(self.logs[i].transfer_id.as_str(), transfer_id) {
                out.push(self.logs[i].clone());
            }
            i = i + 1;
        }
        proof {
            assert(self.logs@.take(self.logs@.len() as int) =~= self.logs@);
        }
        out
    }

    /// Turns logging on or off.
    pub fn set_logging_enabled(&mut self, enabled: bool)
        ensures
            final(self).logging_enabled == enabled,
            final(self).logs@ == old(self).logs@,
            final(self).metrics == old(self).metrics,
            final(self).max_logs == old(self).max_logs,
            final(self).log_level_filter == old(self).log_level_filter,
    {
        self.logging_enabled = enabled;
    }

    /// Sets the least severe level that is logged.
    pub fn set_log_level(&mut self, level: LogLevel)
        ensures
            final(self).log_level_filter == level,
            final(self).logs@ == old(self).logs@,
            final(self).metrics == old(self).metrics,
            final(self).max_logs == old(self).max_logs,
            final(self).logging_enabled == old(self).logging_enabled,
    {
        self.log_level_filter = level;
    }

    /// Drops every entry.
    pub fn clear_logs(&mut self)
        ensures
            final(self).logs@ == Seq::<TransferLogEntry>::empty(),
            final(self).metrics == old(self).metrics,
            final(self).max_logs == old(self).max_logs,
            final(self).logging_enabled == old(self).logging_enabled,
            final(self).log_level_filter == old(self).log_level_filter,
    {
        self.logs.clear();
    }

    /// The health summary at `now_secs`: the metrics' health and the error
    /// and warning counts among the last 100 entries.
    pub fn get_health_summary_at(&self, now_secs: u64) -> (r: HealthSummary)
        requires
            self.metrics.connection_errors + self.metrics.permission_errors + self.metrics.timeout_errors
                <= usize::MAX,
        ensures
            r.health == self.metrics.spec_health(),
            r.error_count == error_entries(keep_newest(self.logs@, 100)),
            r.warning_count == warning_entries(keep_newest(self.logs@, 100)),
            r.uptime_seconds == now_secs,
    {
        let recent = self.get_recent_logs(Some(100));
        let mut errors: usize = 0;
        let mut warnings: usize = 0;
        let mut i: usize = 0;
        while i < recent.len()
            invariant
                i <= recent@.len(),
                recent@.len() <= 100,
                errors == error_entries(recent@.take(i as int)),
                warnings == warning_entries(recent@.take(i as int)),
                errors <= i,
                warnings <= i,
            decreases recent@.len() - i,
        {
            proof {
                assert(recent@.take(i + 1).drop_last() =~= recent@.take(i as int));
            }
            match recent[i].level {
                LogLevel::Error | LogLevel::Critical => {
                    errors = errors + 1;
                },
                LogLevel::Warning => {
                    warnings = warnings + 1;
                },
                _ => {},
            }
            i = i + 1;
        }
        proof {
            assert(recent@.take(recent@.len() as int) =~= recent@);
        }
        HealthSummary {
            health: self.metrics.get_health(),
            error_count: errors,
            warning_count: warnings,
            uptime_seconds: now_secs,
        }
    }

    /// The health summary now.
    pub fn get_health_summary(&self) -> (r: HealthSummary)
        requires
            self.metrics.connection_errors + self.metrics.permission_errors + self.metrics.timeout_errors
                <= usize::MAX,
        ensures
            r.health == self.metrics.spec_health(),
            r.error_count == error_entries(keep_newest(self.logs@, 100)),
            r.warning_count == warning_entries(keep_newest(self.logs@, 100)),
    {
        let now = now_ms();
        self.get_health_summary_at(now / 1000)
    }
}

/// After an event is logged the log holds at most its limit, and the newest
/// entry is the one just logged whenever the limit allows any.
pub proof fn law_log_keeps_newest(s: Seq<LogEntryView>, e: LogEntryView, max: nat)
    ensures
        keep_newest(s.push(e), max).len() == if s.len() + 1 > max { max } else { s.len() + 1 },
        max > 0 ==> keep_newest(s.push(e), max).last() == e,
        forall|i: int| 0 <= i < keep_newest(s.push(e), max).len() - 1 ==>
            #[trigger] keep_newest(s.push(e), max)[i] == s[s.len() + 1 - keep_newest(s.push(e), max).len() + i],
{
}

} // verus!
