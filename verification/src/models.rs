//! Settings and shared records of the SSH client.
use vstd::prelude::*;

verus! {

/// Timeouts used when opening connections and running operations.
#[derive(Debug, Clone, Copy, PartialEq, Eq, Structural)]
pub struct ConnectionTimeoutSettings {
    pub connection_timeout_secs: u32,
    pub jump_host_timeout_secs: u32,
    pub local_forward_timeout_secs: u32,
    pub command_timeout_secs: u32,
    pub sftp_operation_timeout_secs: u32,
}

impl Default for ConnectionTimeoutSettings {
    fn default() -> (r: Self)
        ensures
            r == (ConnectionTimeoutSettings {
                connection_timeout_secs: 15,
                jump_host_timeout_secs: 30,
                local_forward_timeout_secs: 10,
                command_timeout_secs: 30,
                sftp_operation_timeout_secs: 60,
            }),
    {
        ConnectionTimeoutSettings {
            connection_timeout_secs: 15,
            jump_host_timeout_secs: 30,
            local_forward_timeout_secs: 10,
            command_timeout_secs: 30,
            sftp_operation_timeout_secs: 60,
        }
    }
}

/// Automatic reconnection settings.  The backoff multiplier is given in
/// thousandths: 2000 doubles the delay on each attempt.
#[derive(Debug, Clone, Copy, PartialEq, Eq, Structural)]
pub struct ReconnectSettings {
    pub max_reconnect_attempts: u32,
    pub initial_delay_ms: u32,
    pub max_delay_ms: u32,
    pub backoff_multiplier_milli: u32,
    pub enable_auto_reconnect: bool,
}

impl Default for ReconnectSettings {
    fn default() -> (r: Self)
        ensures
            r == (ReconnectSettings {
                max_reconnect_attempts: 5,
                initial_delay_ms: 1000,
                max_delay_ms: 30000,
                backoff_multiplier_milli: 2000,
                enable_auto_reconnect: true,
            }),
    {
        ReconnectSettings {
            max_reconnect_attempts: 5,
            initial_delay_ms: 1000,
            max_delay_ms: 30000,
            backoff_multiplier_milli: 2000,
            enable_auto_reconnect: true,
        }
    }
}

/// Intervals and thresholds of the layered heartbeat.
#[derive(Debug, Clone, Copy, PartialEq, Eq, Structural)]
pub struct HeartbeatSettings {
    pub tcp_keepalive_interval_secs: u32,
    pub ssh_keepalive_interval_secs: u32,
    pub app_heartbeat_interval_secs: u32,
    pub heartbeat_timeout_secs: u32,
    pub failed_heartbeats_before_action: u32,
}

impl Default for HeartbeatSettings {
    fn default() -> (r: Self)
        ensures
            r == (HeartbeatSettings {
                tcp_keepalive_interval_secs: 60,
                ssh_keepalive_interval_secs: 15,
                app_heartbeat_interval_secs: 30,
                heartbeat_timeout_secs: 5,
                failed_heartbeats_before_action: 3,
            }),
    {
        HeartbeatSettings {
            tcp_keepalive_interval_secs: 60,
            ssh_keepalive_interval_secs: 15,
            app_heartbeat_interval_secs: 30,
            heartbeat_timeout_secs: 5,
            failed_heartbeats_before_action: 3,
        }
    }
}

/// Settings of the connection pool health checker.
#[derive(Debug, Clone, Copy, PartialEq, Eq, Structural)]
pub struct PoolHealthSettings {
    pub health_check_interval_secs: u32,
    pub session_warmup_count: u32,
    pub max_session_age_minutes: u32,
    pub unhealthy_threshold: u32,
}

impl Default for PoolHealthSettings {
    fn default() -> (r: Self)
        ensures
            r == (PoolHealthSettings {
                health_check_interval_secs: 60,
                session_warmup_count: 1,
                max_session_age_minutes: 60,
                unhealthy_threshold: 3,
            }),
    {
        PoolHealthSettings {
            health_check_interval_secs: 60,
            session_warmup_count: 1,
            max_session_age_minutes: 60,
            unhealthy_threshold: 3,
        }
    }
}

/// Settings of the network quality monitor.
#[derive(Debug, Clone, Copy, PartialEq, Eq, Structural)]
pub struct NetworkAdaptiveSettings {
    pub enable_adaptive: bool,
    pub latency_check_interval_secs: u32,
    pub high_latency_threshold_ms: u32,
    pub low_bandwidth_threshold_kbps: u32,
}

impl Default for NetworkAdaptiveSettings {
    fn default() -> (r: Self)
        ensures
            r == (NetworkAdaptiveSettings {
                enable_adaptive: true,
                latency_check_interval_secs: 30,
                high_latency_threshold_ms: 300,
                low_bandwidth_threshold_kbps: 100,
            }),
    {
        NetworkAdaptiveSettings {
            enable_adaptive: true,
            latency_check_interval_secs: 30,
            high_latency_threshold_ms: 300,
            low_bandwidth_threshold_kbps: 100,
        }
    }
}

/// Quality class of the network, by measured latency.
#[derive(Debug, Clone, Copy, PartialEq, Eq, Structural)]
pub enum NetworkQuality {
    Excellent,
    Good,
    Fair,
    Poor,
    Unknown,
}

/// Latest measurement of the network.
#[derive(Debug, Clone, Copy, PartialEq, Eq, Structural)]
pub struct NetworkStatus {
    pub latency_ms: u32,
    pub bandwidth_kbps: Option<u32>,
    pub quality: NetworkQuality,
    pub last_update: i64,
}

impl Default for NetworkStatus {
    fn default() -> (r: Self)
        ensures
            r == (NetworkStatus {
                latency_ms: 0,
                bandwidth_kbps: None,
                quality: NetworkQuality::Unknown,
                last_update: 0,
            }),
    {
        NetworkStatus {
            latency_ms: 0,
            bandwidth_kbps: None,
            quality: NetworkQuality::Unknown,
            last_update: 0,
        }
    }
}

/// Connection parameters recommended for a network quality.
#[derive(Debug, Clone, Copy, PartialEq, Eq, Structural)]
pub struct AdaptiveParams {
    pub heartbeat_interval_secs: u32,
    pub sftp_buffer_size: usize,
    pub command_timeout_secs: u32,
    pub keepalive_interval_secs: u32,
}

/// A saved SSH connection.
#[derive(Debug)]
pub struct Connection {
    pub id: Option<i64>,
    pub name: String,
    pub host: String,
    pub port: u16,
    pub username: String,
    pub password: Option<String>,
    pub auth_type: Option<String>,
    pub ssh_key_id: Option<i64>,
    pub jump_host: Option<String>,
    pub jump_port: Option<u16>,
    pub jump_username: Option<String>,
    pub jump_password: Option<String>,
    pub group_id: Option<i64>,
    pub os_type: Option<String>,
    pub key_content: Option<String>,
    pub key_passphrase: Option<String>,
}

/// A copy of an optional string.
pub fn clone_opt(s: &Option<String>) -> (r: Option<String>)
    ensures
        r == *s,
{
    match s {
        Some(v) => Some(v.clone()),
        None => None,
    }
}

impl Clone for Connection {
    fn clone(&self) -> (r: Self)
        ensures
            r == *self,
    {
        Connection {
            id: self.id,
            name: self.name.clone(),
            host: self.host.clone(),
            port: self.port,
            username: self.username.clone(),
            password: clone_opt(&self.password),
            auth_type: clone_opt(&self.auth_type),
            ssh_key_id: self.ssh_key_id,
            jump_host: clone_opt(&self.jump_host),
            jump_port: self.jump_port,
            jump_username: clone_opt(&self.jump_username),
            jump_password: clone_opt(&self.jump_password),
            group_id: self.group_id,
            os_type: clone_opt(&self.os_type),
            key_content: clone_opt(&self.key_content),
            key_passphrase: clone_opt(&self.key_passphrase),
        }
    }
}

/// Figures of a live connection shown with its status.
#[derive(Debug)]
pub struct ConnectionMetrics {
    pub uptime_secs: u64,
    pub bytes_sent: u64,
    pub bytes_received: u64,
    pub latency_ms: u32,
    pub reconnect_count: u32,
    pub last_error: Option<String>,
}

impl ConnectionMetrics {
    /// Metrics with every figure at zero and no error.
    pub fn new() -> (r: Self)
        ensures
            r.uptime_secs == 0,
            r.bytes_sent == 0,
            r.bytes_received == 0,
            r.latency_ms == 0,
            r.reconnect_count == 0,
            r.last_error is None,
    {
        ConnectionMetrics {
            uptime_secs: 0,
            bytes_sent: 0,
            bytes_received: 0,
            latency_ms: 0,
            reconnect_count: 0,
            last_error: None,
        }
    }

    /// The same metrics with this uptime.
    pub fn with_uptime(self, uptime_secs: u64) -> (r: Self)
        ensures
            r == (ConnectionMetrics { uptime_secs, ..self }),
    {
        let mut m = self;
        m.uptime_secs = uptime_secs;
        m
    }

    /// The same metrics with these byte counts.
    pub fn with_bytes(self, sent: u64, received: u64) -> (r: Self)
        ensures
            r == (ConnectionMetrics { bytes_sent: sent, bytes_received: received, ..self }),
    {
        let mut m = self;
        m.bytes_sent = sent;
        m.bytes_received = received;
        m
    }

    /// The same metrics with this latency.
    pub fn with_latency(self, latency_ms: u32) -> (r: Self)
        ensures
            r == (ConnectionMetrics { latency_ms, ..self }),
    {
        let mut m = self;
        m.latency_ms = latency_ms;
        m
    }

    /// The same metrics with this reconnection count.
    pub fn with_reconnect_count(self, count: u32) -> (r: Self)
        ensures
            r == (ConnectionMetrics { reconnect_count: count, ..self }),
    {
        let mut m = self;
        m.reconnect_count = count;
        m
    }

    /// The same metrics with this last error.
    pub fn with_last_error(self, error: Option<String>) -> (r: Self)
        ensures
            r == (ConnectionMetrics { last_error: error, ..self }),
    {
        let mut m = self;
        m.last_error = error;
        m
    }
}

impl Default for ConnectionMetrics {
    fn default() -> (r: Self)
        ensures
            r.uptime_secs == 0,
            r.bytes_sent == 0,
            r.bytes_received == 0,
            r.latency_ms == 0,
            r.reconnect_count == 0,
            r.last_error is None,
    {
        Self::new()
    }
}

} // verus!
