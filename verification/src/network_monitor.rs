//! Network quality monitoring: latency history, bandwidth samples and the
//! connection parameters recommended for the measured quality.
use vstd::prelude::*;

use std::collections::VecDeque;

use crate::clock::{elapsed_between, elapsed_ms, now_ms};
use crate::models::{AdaptiveParams, NetworkAdaptiveSettings, NetworkQuality, NetworkStatus};

verus! {

/// Number of latency measurements and bandwidth samples kept.
pub const MAX_LATENCY_HISTORY: usize = 10;

/// Quality class of a latency: under 50 ms excellent, under 150 ms good,
/// under 300 ms fair, otherwise poor.
pub open spec fn quality_of(latency_ms: u32) -> NetworkQuality {
    if latency_ms < 50 {
        NetworkQuality::Excellent
    } else if latency_ms < 150 {
        NetworkQuality::Good
    } else if latency_ms < 300 {
        NetworkQuality::Fair
    } else {
        NetworkQuality::Poor
    }
}

/// Rank of a known quality, best first.
pub open spec fn quality_rank(q: NetworkQuality) -> int {
    match q {
        NetworkQuality::Excellent => 0,
        NetworkQuality::Good => 1,
        NetworkQuality::Fair => 2,
        NetworkQuality::Poor => 3,
        NetworkQuality::Unknown => 4,
    }
}

impl NetworkQuality {
    /// Quality class of a latency in milliseconds.
    pub fn from_latency(latency_ms: u32) -> (r: Self)
        ensures
            r == quality_of(latency_ms),
    {
        if latency_ms < 50 {
            NetworkQuality::Excellent
        } else if latency_ms < 150 {
            NetworkQuality::Good
        } else if latency_ms < 300 {
            NetworkQuality::Fair
        } else {
            NetworkQuality::Poor
        }
    }
}

/// Parameters recommended for each quality.
pub open spec fn params_for(q: NetworkQuality) -> AdaptiveParams {
    match q {
        NetworkQuality::Excellent => AdaptiveParams {
            heartbeat_interval_secs: 10,
            sftp_buffer_size: 1048576,
            command_timeout_secs: 60,
            keepalive_interval_secs: 10,
        },
        NetworkQuality::Good => AdaptiveParams {
            heartbeat_interval_secs: 15,
            sftp_buffer_size: 524288,
            command_timeout_secs: 30,
            keepalive_interval_secs: 15,
        },
        NetworkQuality::Fair => AdaptiveParams {
            heartbeat_interval_secs: 20,
            sftp_buffer_size: 262144,
            command_timeout_secs: 45,
            keepalive_interval_secs: 20,
        },
        NetworkQuality::Poor => AdaptiveParams {
            heartbeat_interval_secs: 30,
            sftp_buffer_size: 65536,
            command_timeout_secs: 120,
            keepalive_interval_secs: 30,
        },
        NetworkQuality::Unknown => AdaptiveParams {
            heartbeat_interval_secs: 15,
            sftp_buffer_size: 524288,
            command_timeout_secs: 30,
            keepalive_interval_secs: 15,
        },
    }
}

/// Sum of latencies.
pub open spec fn latency_sum(s: Seq<u32>) -> nat
    decreases s.len(),
{
    if s.len() == 0 {
        0
    } else {
        latency_sum(s.drop_last()) + s.last() as nat
    }
}

/// Mean latency, 0 without measurements.
pub open spec fn mean_latency(s: Seq<u32>) -> nat {
    if s.len() == 0 {
        0
    } else {
        latency_sum(s) / s.len()
    }
}

/// Sum of the byte counts of bandwidth samples.
pub open spec fn bytes_sum(s: Seq<(u64, u64)>) -> nat
    decreases s.len(),
{
    if s.len() == 0 {
        0
    } else {
        bytes_sum(s.drop_last()) + s.last().0 as nat
    }
}

/// Mean bandwidth in KiB per second at `now`: all sampled bytes over the
/// time since the oldest sample, rounded down and capped at `u32::MAX`; 0
/// without samples or without elapsed time.
pub open spec fn mean_bandwidth(s: Seq<(u64, u64)>, now: u64) -> u32 {
    if s.len() == 0 {
        0
    } else {
        let duration = elapsed_between(s[0].1, now);
        if duration == 0 {
            0
        } else {
            let kbps = bytes_sum(s) * 1000 / (duration as nat) / 1024;
            if kbps > u32::MAX {
                u32::MAX
            } else {
                kbps as u32
            }
        }
    }
}

/// The newest `MAX_LATENCY_HISTORY` entries after appending `x`.
pub open spec fn bounded_push<T>(s: Seq<T>, x: T) -> Seq<T> {
    if s.len() >= 10 {
        s.drop_first().push(x)
    } else {
        s.push(x)
    }
}

proof fn lemma_latency_sum_bound(s: Seq<u32>)
    ensures
        latency_sum(s) <= s.len() * (u32::MAX as nat),
    decreases s.len(),
{
    if s.len() > 0 {
        lemma_latency_sum_bound(s.drop_last());
    }
}

proof fn lemma_bytes_sum_bound(s: Seq<(u64, u64)>)
    ensures
        bytes_sum(s) <= s.len() * (u64::MAX as nat),
    decreases s.len(),
{
    if s.len() > 0 {
        lemma_bytes_sum_bound(s.drop_last());
    }
}

/// Latency and bandwidth monitor.  Times are milliseconds on the clock of
/// [`crate::clock`]; bandwidth samples are (bytes, time) pairs.
pub struct NetworkMonitor {
    pub settings: NetworkAdaptiveSettings,
    pub current_status: NetworkStatus,
    pub latency_history: VecDeque<u32>,
    pub last_check_ms: u64,
    pub bandwidth_samples: VecDeque<(u64, u64)>,
}

impl NetworkMonitor {
    /// At most ten latencies and ten bandwidth samples are kept.
    pub open spec fn wf(&self) -> bool {
        self.latency_history@.len() <= 10 && self.bandwidth_samples@.len() <= 10
    }

    /// A monitor with no measurement, counted from now.
    pub fn new(settings: NetworkAdaptiveSettings) -> (r: Self)
        ensures
            r.wf(),
            r.settings == settings,
            r.current_status == (NetworkStatus {
                latency_ms: 0,
                bandwidth_kbps: None,
                quality: NetworkQuality::Unknown,
                last_update: 0,
            }),
            r.latency_history@.len() == 0,
            r.bandwidth_samples@.len() == 0,
    {
        Self::new_at(settings, now_ms())
    }

    /// A monitor with no measurement, counted from `now`.
    pub fn new_at(settings: NetworkAdaptiveSettings, now: u64) -> (r: Self)
        ensures
            r.wf(),
            r.settings == settings,
            r.current_status == (NetworkStatus {
                latency_ms: 0,
                bandwidth_kbps: None,
                quality: NetworkQuality::Unknown,
                last_update: 0,
            }),
            r.latency_history@.len() == 0,
            r.bandwidth_samples@.len() == 0,
            r.last_check_ms == now,
    {
        NetworkMonitor {
            settings,
            current_status: NetworkStatus::default(),
            latency_history: VecDeque::with_capacity(MAX_LATENCY_HISTORY),
            last_check_ms: now,
            bandwidth_samples: VecDeque::with_capacity(10),
        }
    }

    /// A monitor with the default settings.
    pub fn with_default_settings() -> (r: Self)
        ensures
            r.wf(),
            r.settings == (NetworkAdaptiveSettings {
                enable_adaptive: true,
                latency_check_interval_secs: 30,
                high_latency_threshold_ms: 300,
                low_bandwidth_threshold_kbps: 100,
            }),
            r.current_status == (NetworkStatus {
                latency_ms: 0,
                bandwidth_kbps: None,
                quality: NetworkQuality::Unknown,
                last_update: 0,
            }),
            r.latency_history@.len() == 0,
            r.bandwidth_samples@.len() == 0,
    {
        Self::new(NetworkAdaptiveSettings::default())
    }

    /// Replaces the settings.
    pub fn update_settings(&mut self, settings: NetworkAdaptiveSettings)
        ensures
            final(self).settings == settings,
            final(self).current_status == old(self).current_status,
            final(self).latency_history@ == old(self).latency_history@,
            final(self).bandwidth_samples@ == old(self).bandwidth_samples@,
            final(self).last_check_ms == old(self).last_check_ms,
    {
        self.settings = settings;
    }

    /// The settings.
    pub fn get_settings(&self) -> (r: &NetworkAdaptiveSettings)
        ensures
            *r == self.settings,
    {
        &self.settings
    }

    /// A latency measurement is due at `now`: monitoring enabled and the
    /// check interval passed since the last one.
    pub open spec fn check_due(&self, now: u64) -> bool {
        self.settings.enable_adaptive && elapsed_between(self.last_check_ms, now)
            >= self.settings.latency_check_interval_secs as nat * 1000
    }

    /// `after` is `before` once a sample of `bytes` moved in `duration_ms`
    /// was taken at `now`: ignored for a zero duration, otherwise kept among
    /// the newest ten with the status bandwidth set to their mean.
    pub open spec fn bandwidth_recorded(before: Self, after: Self, bytes: u64, duration_ms: u64, now: u64) -> bool {
        &&& duration_ms == 0 ==> after.bandwidth_samples@ == before.bandwidth_samples@
            && after.current_status == before.current_status
        &&& duration_ms > 0 ==> after.bandwidth_samples@ == bounded_push(before.bandwidth_samples@, (bytes, now))
            && after.current_status == (NetworkStatus {
            bandwidth_kbps: Some(mean_bandwidth(after.bandwidth_samples@, now)),
            ..before.current_status
        })
        &&& after.latency_history@ == before.latency_history@
        &&& after.settings == before.settings
        &&& after.last_check_ms == before.last_check_ms
    }

    /// Whether a latency measurement is due at `now`: monitoring enabled and
    /// the check interval passed since the last one.
    pub fn should_check_at(&self, now: u64) -> (r: bool)
        ensures
            r == self.check_due(now),
    {
        if !self.settings.enable_adaptive {
            return false;
        }
        elapsed_ms(self.last_check_ms, now) >= self.settings.latency_check_interval_secs as u64 * 1000
    }

    /// Whether a latency measurement is due now.
    pub fn should_check(&self) -> (r: bool)
        ensures
            exists|now: u64| r == #[trigger] self.check_due(now),
    {
        self.should_check_at(now_ms())
    }

    /// Records a measured latency at `now` (Unix time `unix_secs`): the
    /// history keeps the newest ten, the status takes their mean and its
    /// quality class.
    pub fn record_latency_at(&mut self, latency_ms: u32, now: u64, unix_secs: i64)
        requires
            old(self).wf(),
        ensures
            final(self).wf(),
            final(self).latency_history@ == bounded_push(old(self).latency_history@, latency_ms),
            final(self).last_check_ms == now,
            final(self).current_status == (NetworkStatus {
                latency_ms: mean_latency(final(self).latency_history@) as u32,
                quality: quality_of(mean_latency(final(self).latency_history@) as u32),
                last_update: unix_secs,
                ..old(self).current_status
            }),
            final(self).settings == old(self).settings,
            final(self).bandwidth_samples@ == old(self).bandwidth_samples@,
    {
        self.update_latency_history(latency_ms, now);
        self.update_status(unix_secs);
    }

    /// Records a bandwidth sample of `bytes` moved in `duration_ms` at `now`:
    /// ignored for a zero duration, otherwise kept among the newest ten and
    /// the status bandwidth set to their mean.
    pub fn estimate_bandwidth_at(&mut self, bytes_transferred: u64, duration_ms: u64, now: u64)
        requires
            old(self).wf(),
        ensures
            final(self).wf(),
            Self::bandwidth_recorded(*old(self), *final(self), bytes_transferred, duration_ms, now),
    {
        if duration_ms > 0 {
            self.bandwidth_samples.push_back((bytes_transferred, now));
            if self.bandwidth_samples.len() > 10 {
                self.bandwidth_samples.pop_front();
            }
            proof {
                assert(self.bandwidth_samples@ =~= bounded_push(
                    old(self).bandwidth_samples@,
                    (bytes_transferred, now),
                ));
            }
            let avg = self.calculate_avg_bandwidth_at(now);
            self.current_status.bandwidth_kbps = Some(avg);
        }
    }

    /// Records a bandwidth sample made now.
    pub fn estimate_bandwidth(&mut self, bytes_transferred: u64, duration_ms: u64)
        requires
            old(self).wf(),
        ensures
            final(self).wf(),
            exists|now: u64|
                #[trigger] Self::bandwidth_recorded(*old(self), *final(self), bytes_transferred, duration_ms, now),
    {
        self.estimate_bandwidth_at(bytes_transferred, duration_ms, now_ms());
    }

    /// Mean bandwidth of the samples at `now`, in KiB per second.
    fn calculate_avg_bandwidth_at(&self, now: u64) -> (r: u32)
        requires
            self.wf(),
        ensures
            r == mean_bandwidth(self.bandwidth_samples@, now),
    {
        let n = self.bandwidth_samples.len();
        if n == 0 {
            return 0;
        }
        let ghost s = self.bandwidth_samples@;
        let mut total: u128 = 0;
        let mut i: usize = 0;
        while i < n
            invariant
                s == self.bandwidth_samples@,
                n == s.len(),
                n <= 10,
                i <= n,
                total == bytes_sum(s.take(i as int)),
            decreases n - i,
        {
            proof {
                lemma_bytes_sum_bound(s.take(i as int));
                assert(s.take(i as int + 1).drop_last() =~= s.take(i as int));
            }
            total = total + self.bandwidth_samples[i].0 as u128;
            i = i + 1;
        }
        assert(s.take(n as int) =~= s);
        let first_time = self.bandwidth_samples[0].1;
        let duration = elapsed_ms(first_time, now);
        if duration == 0 {
            return 0;
        }
        proof {
            lemma_bytes_sum_bound(s);
        }
        let kbps: u128 = total * 1000 / (duration as u128) / 1024;
        if kbps > u32::MAX as u128 {
            u32::MAX
        } else {
            kbps as u32
        }
    }

    /// The latest status.
    pub fn get_status(&self) -> (r: &NetworkStatus)
        ensures
            *r == self.current_status,
    {
        &self.current_status
    }

    /// Parameters recommended for the current quality: larger buffers and
    /// shorter intervals on good networks, the reverse on poor ones.
    pub fn get_recommended_params(&self) -> (r: AdaptiveParams)
        ensures
            r == params_for(self.current_status.quality),
    {
        match self.current_status.quality {
            NetworkQuality::Excellent => AdaptiveParams {
                heartbeat_interval_secs: 10,
                sftp_buffer_size: 1024 * 1024,
                command_timeout_secs: 60,
                keepalive_interval_secs: 10,
            },
            NetworkQuality::Good => AdaptiveParams {
                heartbeat_interval_secs: 15,
                sftp_buffer_size: 512 * 1024,
                command_timeout_secs: 30,
                keepalive_interval_secs: 15,
            },
            NetworkQuality::Fair => AdaptiveParams {
                heartbeat_interval_secs: 20,
                sftp_buffer_size: 256 * 1024,
                command_timeout_secs: 45,
                keepalive_interval_secs: 20,
            },
            NetworkQuality::Poor => AdaptiveParams {
                heartbeat_interval_secs: 30,
                sftp_buffer_size: 64 * 1024,
                command_timeout_secs: 120,
                keepalive_interval_secs: 30,
            },
            NetworkQuality::Unknown => AdaptiveParams {
                heartbeat_interval_secs: 15,
                sftp_buffer_size: 512 * 1024,
                command_timeout_secs: 30,
                keepalive_interval_secs: 15,
            },
        }
    }

    /// Appends a latency, dropping the oldest when ten are kept.
    fn update_latency_history(&mut self, latency_ms: u32, now: u64)
        requires
            old(self).wf(),
        ensures
            final(self).wf(),
            final(self).latency_history@ == bounded_push(old(self).latency_history@, latency_ms),
            final(self).last_check_ms == now,
            final(self).current_status == old(self).current_status,
            final(self).settings == old(self).settings,
            final(self).bandwidth_samples@ == old(self).bandwidth_samples@,
    {
        if self.latency_history.len() >= MAX_LATENCY_HISTORY {
            self.latency_history.pop_front();
        }
        self.latency_history.push_back(latency_ms);
        proof {
            assert(self.latency_history@ =~= bounded_push(old(self).latency_history@, latency_ms));
        }
        self.last_check_ms = now;
    }

    /// Mean of the kept latencies, 0 without any.
    fn calculate_avg_latency(&self) -> (r: u32)
        requires
            self.wf(),
        ensures
            r == mean_latency(self.latency_history@),
    {
        let n = self.latency_history.len();
        if n == 0 {
            return 0;
        }
        let ghost s = self.latency_history@;
        let mut sum: u64 = 0;
        let mut i: usize = 0;
        while i < n
            invariant
                s == self.latency_history@,
                n == s.len(),
                n <= 10,
                i <= n,
                sum == latency_sum(s.take(i as int)),
            decreases n - i,
        {
            proof {
                lemma_latency_sum_bound(s.take(i as int));
                assert(s.take(i as int + 1).drop_last() =~= s.take(i as int));
            }
            sum = sum + self.latency_history[i] as u64;
            i = i + 1;
        }
        assert(s.take(n as int) =~= s);
        proof {
            lemma_latency_sum_bound(s);
        }
        let mean = sum / (n as u64);
        assert(mean <= u32::MAX) by (nonlinear_arith)
            requires
                mean == sum / (n as u64),
                sum <= n * (u32::MAX as nat),
                n > 0,
        ;
        mean as u32
    }

    /// Sets the status latency to the mean and the quality to its class.
    fn update_status(&mut self, unix_secs: i64)
        requires
            old(self).wf(),
        ensures
            final(self).wf(),
            final(self).current_status == (NetworkStatus {
                latency_ms: mean_latency(old(self).latency_history@) as u32,
                quality: quality_of(mean_latency(old(self).latency_history@) as u32),
                last_update: unix_secs,
                ..old(self).current_status
            }),
            final(self).latency_history@ == old(self).latency_history@,
            final(self).bandwidth_samples@ == old(self).bandwidth_samples@,
            final(self).settings == old(self).settings,
            final(self).last_check_ms == old(self).last_check_ms,
    {
        let avg = self.calculate_avg_latency();
        self.current_status.latency_ms = avg;
        self.current_status.quality = NetworkQuality::from_latency(avg);
        self.current_status.last_update = unix_secs;
    }

    /// Forgets all measurements and restarts the check interval at `now`.
    pub fn reset_at(&mut self, now: u64)
        ensures
            final(self).wf(),
            final(self).latency_history@.len() == 0,
            final(self).bandwidth_samples@.len() == 0,
            final(self).current_status == (NetworkStatus {
                latency_ms: 0,
                bandwidth_kbps: None,
                quality: NetworkQuality::Unknown,
                last_update: 0,
            }),
            final(self).last_check_ms == now,
            final(self).settings == old(self).settings,
    {
        self.latency_history.clear();
        self.bandwidth_samples.clear();
        self.current_status = NetworkStatus::default();
        self.last_check_ms = now;
    }

    /// Forgets all measurements and restarts the check interval now.
    pub fn reset(&mut self)
        ensures
            final(self).wf(),
            final(self).latency_history@.len() == 0,
            final(self).bandwidth_samples@.len() == 0,
            final(self).current_status == (NetworkStatus {
                latency_ms: 0,
                bandwidth_kbps: None,
                quality: NetworkQuality::Unknown,
                last_update: 0,
            }),
            final(self).settings == old(self).settings,
    {
        self.reset_at(now_ms());
    }

    /// Whether adaptive monitoring is enabled.
    pub fn is_enabled(&self) -> (r: bool)
        ensures
            r == self.settings.enable_adaptive,
    {
        self.settings.enable_adaptive
    }
}

/// Higher latency never gives a better quality class.
pub proof fn law_quality_monotone(a: u32, b: u32)
    requires
        a <= b,
    ensures
        quality_rank(quality_of(a)) <= quality_rank(quality_of(b)),
        quality_of(a) != NetworkQuality::Unknown,
{
}

/// The history never holds more than ten entries, and the newest entry is
/// the one just recorded.
pub proof fn law_history_bounded<T>(s: Seq<T>, x: T)
    requires
        s.len() <= 10,
    ensures
        bounded_push(s, x).len() <= 10,
        bounded_push(s, x).last() == x,
{
}


/// The parameters adapt to quality: a worse measured quality never gets a
/// larger SFTP buffer, nor a shorter heartbeat or keepalive interval; the
/// command timeout never shortens from a good network on, and a poor network
/// has the longest (an excellent one waits 60 s, longer than a good one's
/// 30 s); a poor network gets 30 s intervals, a 64 KiB buffer and a 120 s
/// command timeout.
pub proof fn law_params_follow_quality(better: NetworkQuality, worse: NetworkQuality)
    requires
        better != NetworkQuality::Unknown,
        worse != NetworkQuality::Unknown,
        quality_rank(better) <= quality_rank(worse),
    ensures
        params_for(worse).sftp_buffer_size <= params_for(better).sftp_buffer_size,
        params_for(worse).heartbeat_interval_secs >= params_for(better).heartbeat_interval_secs,
        params_for(worse).keepalive_interval_secs >= params_for(better).keepalive_interval_secs,
        better != NetworkQuality::Excellent || worse == NetworkQuality::Poor ==> params_for(worse).command_timeout_secs
            >= params_for(better).command_timeout_secs,
        params_for(NetworkQuality::Poor) == (AdaptiveParams {
            heartbeat_interval_secs: 30,
            sftp_buffer_size: 65536,
            command_timeout_secs: 120,
            keepalive_interval_secs: 30,
        }),
{
}

} // verus!
