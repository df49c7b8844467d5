//! Types of the file-transfer subsystem: operations, statuses, settings and
//! errors.
use vstd::prelude::*;

use crate::error_classifier::{IoErrorInfo, IoErrorKind, SshError};
use crate::text::{chars_of, contains_sub, str_contains};

verus! {

/// Direction of a transfer.
#[derive(Debug, Clone, Copy, PartialEq, Eq, Structural)]
pub enum TransferOperation {
    Upload,
    Download,
}

impl TransferOperation {
    /// The lower-case name shown to users.
    pub fn name(&self) -> (r: &'static str)
        ensures
            r@ == (match *self {
                TransferOperation::Upload => "upload"@,
                TransferOperation::Download => "download"@,
            }),
    {
        match self {
            TransferOperation::Upload => "upload",
            TransferOperation::Download => "download",
        }
    }
}

/// Status of a transfer in its life cycle.
#[derive(Debug, Clone, Copy, PartialEq, Eq, Structural)]
pub enum TransferStatus {
    Pending,
    Connecting,
    Transferring,
    Paused,
    Completed,
    Failed,
    Cancelled,
    Resuming,
}

/// No transition is expected out of this status.
pub open spec fn spec_is_terminal(s: TransferStatus) -> bool {
    s == TransferStatus::Completed || s == TransferStatus::Failed || s == TransferStatus::Cancelled
}

/// Data may be moving in this status.
pub open spec fn spec_is_active(s: TransferStatus) -> bool {
    s == TransferStatus::Connecting || s == TransferStatus::Transferring || s == TransferStatus::Resuming
}

/// The `Debug` name of a status.
pub open spec fn status_debug_name(s: TransferStatus) -> Seq<char> {
    match s {
        TransferStatus::Pending => "Pending"@,
        TransferStatus::Connecting => "Connecting"@,
        TransferStatus::Transferring => "Transferring"@,
        TransferStatus::Paused => "Paused"@,
        TransferStatus::Completed => "Completed"@,
        TransferStatus::Failed => "Failed"@,
        TransferStatus::Cancelled => "Cancelled"@,
        TransferStatus::Resuming => "Resuming"@,
    }
}

impl TransferStatus {
    /// Completed, failed or cancelled.
    pub fn is_terminal(&self) -> (r: bool)
        ensures
            r == spec_is_terminal(*self),
    {
        matches!(self, TransferStatus::Completed | TransferStatus::Failed | TransferStatus::Cancelled)
    }

    /// Connecting, transferring or resuming.
    pub fn is_active(&self) -> (r: bool)
        ensures
            r == spec_is_active(*self),
    {
        matches!(self, TransferStatus::Connecting | TransferStatus::Transferring | TransferStatus::Resuming)
    }

    /// Only a transferring transfer can be paused.
    pub fn can_pause(&self) -> (r: bool)
        ensures
            r == (*self == TransferStatus::Transferring),
    {
        matches!(self, TransferStatus::Transferring)
    }

    /// Paused and failed transfers can be resumed.
    pub fn can_resume(&self) -> (r: bool)
        ensures
            r == (*self == TransferStatus::Paused || *self == TransferStatus::Failed),
    {
        matches!(self, TransferStatus::Paused | TransferStatus::Failed)
    }

    /// Any transfer that is not terminal can be cancelled.
    pub fn can_cancel(&self) -> (r: bool)
        ensures
            r == !spec_is_terminal(*self),
    {
        !self.is_terminal()
    }

    /// The lower-case name shown to users.
    pub fn name(&self) -> (r: &'static str)
        ensures
            r@ == (match *self {
                TransferStatus::Pending => "pending"@,
                TransferStatus::Connecting => "connecting"@,
                TransferStatus::Transferring => "transferring"@,
                TransferStatus::Paused => "paused"@,
                TransferStatus::Completed => "completed"@,
                TransferStatus::Failed => "failed"@,
                TransferStatus::Cancelled => "cancelled"@,
                TransferStatus::Resuming => "resuming"@,
            }),
    {
        match self {
            TransferStatus::Pending => "pending",
            TransferStatus::Connecting => "connecting",
            TransferStatus::Transferring => "transferring",
            TransferStatus::Paused => "paused",
            TransferStatus::Completed => "completed",
            TransferStatus::Failed => "failed",
            TransferStatus::Cancelled => "cancelled",
            TransferStatus::Resuming => "resuming",
        }
    }

    /// The `Debug` name, used in error messages.
    pub fn debug_name(&self) -> (r: &'static str)
        ensures
            r@ == status_debug_name(*self),
    {
        match self {
            TransferStatus::Pending => "Pending",
            TransferStatus::Connecting => "Connecting",
            TransferStatus::Transferring => "Transferring",
            TransferStatus::Paused => "Paused",
            TransferStatus::Completed => "Completed",
            TransferStatus::Failed => "Failed",
            TransferStatus::Cancelled => "Cancelled",
            TransferStatus::Resuming => "Resuming",
        }
    }
}

/// Settings of the transfer subsystem.
#[derive(Debug, Clone, Copy, PartialEq, Eq, Structural)]
pub struct TransferSettings {
    pub max_transfer_connections: usize,
    pub transfer_connection_idle_timeout_secs: u64,
    pub default_chunk_size: usize,
    pub max_concurrent_transfers: usize,
    pub transfer_timeout_secs: u32,
    pub no_progress_timeout_secs: u32,
    pub operation_timeout_secs: u32,
    pub enable_resume: bool,
    pub checkpoint_interval_secs: u32,
    pub checkpoint_interval_bytes: u64,
    pub verify_checksum: bool,
    pub max_retry_attempts: u32,
    pub retry_delay_ms: u64,
}

/// The default transfer settings.
pub open spec fn default_transfer_settings() -> TransferSettings {
    TransferSettings {
        max_transfer_connections: 3,
        transfer_connection_idle_timeout_secs: 300,
        default_chunk_size: 65536,
        max_concurrent_transfers: 5,
        transfer_timeout_secs: 300,
        no_progress_timeout_secs: 30,
        operation_timeout_secs: 60,
        enable_resume: true,
        checkpoint_interval_secs: 10,
        checkpoint_interval_bytes: 10485760,
        verify_checksum: false,
        max_retry_attempts: 3,
        retry_delay_ms: 1000,
    }
}

impl Default for TransferSettings {
    fn default() -> (r: Self)
        ensures
            r == default_transfer_settings(),
    {
        TransferSettings {
            max_transfer_connections: 3,
            transfer_connection_idle_timeout_secs: 300,
            default_chunk_size: 65536,
            max_concurrent_transfers: 5,
            transfer_timeout_secs: 300,
            no_progress_timeout_secs: 30,
            operation_timeout_secs: 60,
            enable_resume: true,
            checkpoint_interval_secs: 10,
            checkpoint_interval_bytes: 10 * 1024 * 1024,
            verify_checksum: false,
            max_retry_attempts: 3,
            retry_delay_ms: 1000,
        }
    }
}

impl TransferSettings {
    /// Whole-transfer timeout, in seconds.
    pub fn transfer_timeout(&self) -> (r: u64)
        ensures
            r == self.transfer_timeout_secs,
    {
        self.transfer_timeout_secs as u64
    }

    /// Timeout without progress, in seconds.
    pub fn no_progress_timeout(&self) -> (r: u64)
        ensures
            r == self.no_progress_timeout_secs,
    {
        self.no_progress_timeout_secs as u64
    }

    /// Timeout of one operation, in seconds.
    pub fn operation_timeout(&self) -> (r: u64)
        ensures
            r == self.operation_timeout_secs,
    {
        self.operation_timeout_secs as u64
    }

    /// Interval between checkpoint saves, in seconds.
    pub fn checkpoint_interval(&self) -> (r: u64)
        ensures
            r == self.checkpoint_interval_secs,
    {
        self.checkpoint_interval_secs as u64
    }

    /// Idle time after which pooled connections are closed, in seconds.
    pub fn idle_timeout(&self) -> (r: u64)
        ensures
            r == self.transfer_connection_idle_timeout_secs,
    {
        self.transfer_connection_idle_timeout_secs
    }

    /// Delay between retries, in milliseconds.
    pub fn retry_delay(&self) -> (r: u64)
        ensures
            r == self.retry_delay_ms,
    {
        self.retry_delay_ms
    }
}

/// Events of a transfer's life, reported to the user interface.  Speeds
/// are in bytes per second.
#[derive(Debug)]
pub enum TransferEvent {
    Started { id: String, operation: TransferOperation },
    Progress { id: String, transferred: u64, total: u64, speed_bps: u64 },
    Paused { id: String, transferred: u64 },
    Resumed { id: String, from_offset: u64 },
    Completed { id: String, duration_secs: u64, total_bytes: u64 },
    Failed { id: String, error: String, transferred: u64 },
    Cancelled { id: String, transferred: u64 },
    CheckpointSaved { id: String, transferred: u64 },
}

/// Errors of the transfer subsystem.
#[derive(Debug)]
pub enum TransferError {
    TemporaryNetwork(String),
    Timeout(String),
    WouldBlock,
    PermissionDenied(String),
    DiskFull(String),
    InvalidPath(String),
    AuthenticationFailed(String),
    ConnectionLost,
    Cancelled,
    CheckpointMismatch(String),
    CannotResume(String),
    InvalidCheckpoint,
    Unknown(String),
}

impl Clone for TransferError {
    fn clone(&self) -> (r: Self)
        ensures
            r == *self,
    {
        match self {
            TransferError::TemporaryNetwork(m) => TransferError::TemporaryNetwork(m.clone()),
            TransferError::Timeout(m) => TransferError::Timeout(m.clone()),
            TransferError::WouldBlock => TransferError::WouldBlock,
            TransferError::PermissionDenied(m) => TransferError::PermissionDenied(m.clone()),
            TransferError::DiskFull(m) => TransferError::DiskFull(m.clone()),
            TransferError::InvalidPath(m) => TransferError::InvalidPath(m.clone()),
            TransferError::AuthenticationFailed(m) => TransferError::AuthenticationFailed(m.clone()),
            TransferError::ConnectionLost => TransferError::ConnectionLost,
            TransferError::Cancelled => TransferError::Cancelled,
            TransferError::CheckpointMismatch(m) => TransferError::CheckpointMismatch(m.clone()),
            TransferError::CannotResume(m) => TransferError::CannotResume(m.clone()),
            TransferError::InvalidCheckpoint => TransferError::InvalidCheckpoint,
            TransferError::Unknown(m) => TransferError::Unknown(m.clone()),
        }
    }
}

/// Errors worth retrying: temporary network errors, timeouts, blocking
/// operations and lost connections.
pub open spec fn spec_is_retryable(e: TransferError) -> bool {
    e is TemporaryNetwork || e is Timeout || e is WouldBlock || e is ConnectionLost
}

/// Errors that point at the connection.
pub open spec fn spec_is_connection_error(e: TransferError) -> bool {
    e is TemporaryNetwork || e is ConnectionLost || e is Timeout
}

/// Errors that point at missing rights.
pub open spec fn spec_is_permission_error(e: TransferError) -> bool {
    e is PermissionDenied || e is AuthenticationFailed
}

/// The message of each error.
pub open spec fn error_text(e: TransferError) -> Seq<char> {
    match e {
        TransferError::TemporaryNetwork(s) => "Temporary network error: "@ + s@,
        TransferError::Timeout(s) => "Operation timed out: "@ + s@,
        TransferError::WouldBlock => "Operation would block (non-blocking mode)"@,
        TransferError::PermissionDenied(s) => "Permission denied: "@ + s@,
        TransferError::DiskFull(s) => "Disk full: "@ + s@,
        TransferError::InvalidPath(s) => "Invalid path: "@ + s@,
        TransferError::AuthenticationFailed(s) => "Authentication failed: "@ + s@,
        TransferError::ConnectionLost => "Connection lost"@,
        TransferError::Cancelled => "Transfer cancelled by user"@,
        TransferError::CheckpointMismatch(s) => "Checkpoint mismatch: "@ + s@,
        TransferError::CannotResume(s) => "Cannot resume transfer: "@ + s@,
        TransferError::InvalidCheckpoint => "Invalid checkpoint data"@,
        TransferError::Unknown(s) => "Unknown error: "@ + s@,
    }
}

fn prefixed(prefix: &str, s: &String) -> (r: String)
    ensures
        r@ == prefix@ + s@,
{
    String::from_str(prefix).concat(s.as_str())
}

/// Error made from the text of an SSH library error: a timeout when it
/// mentions `timeout` or `timed out`, refused permission when it mentions
/// `permission` or `denied`, failed authentication when it mentions `auth`,
/// otherwise unknown.  The text is matched as it is, without changing case.
pub open spec fn error_from_ssh_text(text: String) -> TransferError {
    if contains_sub(text@, "timeout"@) || contains_sub(text@, "timed out"@) {
        TransferError::Timeout(text)
    } else if contains_sub(text@, "permission"@) || contains_sub(text@, "denied"@) {
        TransferError::PermissionDenied(text)
    } else if contains_sub(text@, "auth"@) {
        TransferError::AuthenticationFailed(text)
    } else {
        TransferError::Unknown(text)
    }
}

/// Error made from an I/O error, by its kind.
pub open spec fn io_error_spec(err: IoErrorInfo) -> TransferError {
    match err.kind {
        IoErrorKind::PermissionDenied => TransferError::PermissionDenied(err.text),
        IoErrorKind::NotFound => TransferError::InvalidPath(err.text),
        IoErrorKind::WouldBlock => TransferError::WouldBlock,
        IoErrorKind::TimedOut => TransferError::Timeout(err.text),
        IoErrorKind::ConnectionReset | IoErrorKind::ConnectionAborted => TransferError::ConnectionLost,
        _ => TransferError::Unknown(err.text),
    }
}

impl TransferError {
    /// Whether the error is worth retrying.
    pub fn is_retryable(&self) -> (r: bool)
        ensures
            r == spec_is_retryable(*self),
    {
        matches!(
            self,
            TransferError::TemporaryNetwork(_) | TransferError::Timeout(_) | TransferError::WouldBlock
                | TransferError::ConnectionLost
        )
    }

    /// Whether the error points at the connection.
    pub fn is_connection_error(&self) -> (r: bool)
        ensures
            r == spec_is_connection_error(*self),
    {
        matches!(
            self,
            TransferError::TemporaryNetwork(_) | TransferError::ConnectionLost | TransferError::Timeout(_)
        )
    }

    /// Whether the error points at missing rights.
    pub fn is_permission_error(&self) -> (r: bool)
        ensures
            r == spec_is_permission_error(*self),
    {
        matches!(self, TransferError::PermissionDenied(_) | TransferError::AuthenticationFailed(_))
    }

    /// The message shown for the error.
    pub fn message(&self) -> (r: String)
        ensures
            r@ == error_text(*self),
    {
        match self {
            TransferError::TemporaryNetwork(s) => prefixed("Temporary network error: ", s),
            TransferError::Timeout(s) => prefixed("Operation timed out: ", s),
            TransferError::WouldBlock => String::from_str("Operation would block (non-blocking mode)"),
            TransferError::PermissionDenied(s) => prefixed("Permission denied: ", s),
            TransferError::DiskFull(s) => prefixed("Disk full: ", s),
            TransferError::InvalidPath(s) => prefixed("Invalid path: ", s),
            TransferError::AuthenticationFailed(s) => prefixed("Authentication failed: ", s),
            TransferError::ConnectionLost => String::from_str("Connection lost"),
            TransferError::Cancelled => String::from_str("Transfer cancelled by user"),
            TransferError::CheckpointMismatch(s) => prefixed("Checkpoint mismatch: ", s),
            TransferError::CannotResume(s) => prefixed("Cannot resume transfer: ", s),
            TransferError::InvalidCheckpoint => String::from_str("Invalid checkpoint data"),
            TransferError::Unknown(s) => prefixed("Unknown error: ", s),
        }
    }

    /// Maps an SSH library error by its displayed text; see
    /// [`error_from_ssh_text`].
    pub fn from_ssh_error(err: &SshError) -> (r: TransferError)
        ensures
            r == error_from_ssh_text(err.text),
    {
        let msg = chars_of(err.text.as_str());
        let text = err.text.clone();
        proof {
            assert(text@ == err.text@);
        }
        if str_contains(&msg, "timeout") || str_contains(&msg, "timed out") {
            TransferError::Timeout(text)
        } else if str_contains(&msg, "permission") || str_contains(&msg, "denied") {
            TransferError::PermissionDenied(text)
        } else if str_contains(&msg, "auth") {
            TransferError::AuthenticationFailed(text)
        } else {
            TransferError::Unknown(text)
        }
    }

    /// Maps an I/O error by its kind: refused permission, a missing path, a
    /// blocking operation, a timeout, a dropped connection, or unknown.
    pub fn from_io_error(err: &IoErrorInfo) -> (r: TransferError)
        ensures
            r == io_error_spec(*err),
    {
        let text = err.text.clone();
        proof {
            assert(text == err.text) by {
                assert(text@ == err.text@);
            }
        }
        match err.kind {
            IoErrorKind::PermissionDenied => TransferError::PermissionDenied(text),
            IoErrorKind::NotFound => TransferError::InvalidPath(text),
            IoErrorKind::WouldBlock => TransferError::WouldBlock,
            IoErrorKind::TimedOut => TransferError::Timeout(text),
            IoErrorKind::ConnectionReset | IoErrorKind::ConnectionAborted => TransferError::ConnectionLost,
            _ => TransferError::Unknown(text),
        }
    }
}

impl From<String> for TransferError {
    fn from(err: String) -> (r: TransferError) {
        TransferError::Unknown(err)
    }
}

impl vstd::std_specs::convert::FromSpecImpl<String> for TransferError {
    open spec fn obeys_from_spec() -> bool {
        true
    }

    open spec fn from_spec(v: String) -> TransferError {
        TransferError::Unknown(v)
    }
}

} // verus!
