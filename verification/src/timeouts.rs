//! Timeouts of connections and operations, with their defaults, and the
//! messages shared by the SSH session workers.
use vstd::prelude::*;

use crate::models::ConnectionTimeoutSettings;

verus! {

/// Default time to open a connection, in seconds.
pub const DEFAULT_CONNECTION_TIMEOUT_SECS: u32 = 15;
/// Default time to reach a jump host, in seconds.
pub const DEFAULT_JUMP_HOST_TIMEOUT_SECS: u32 = 30;
/// Default time to reach a forwarded local port, in seconds.
pub const DEFAULT_LOCAL_FORWARD_TIMEOUT_SECS: u32 = 10;
/// Default time for a remote command, in seconds.
pub const DEFAULT_COMMAND_TIMEOUT_SECS: u32 = 30;
/// Default time for an SFTP operation, in seconds.
pub const DEFAULT_SFTP_OPERATION_TIMEOUT_SECS: u32 = 60;

/// The configured value when there are settings, else the default.
pub open spec fn timeout_or_default(configured: Option<u32>, default: u32) -> u64 {
    match configured {
        Some(v) => v as u64,
        None => default as u64,
    }
}

/// Time to open a connection, in seconds.
pub fn get_connection_timeout(settings: Option<&ConnectionTimeoutSettings>) -> (r: u64)
    ensures
        r == timeout_or_default(
            match settings {
                Some(s) => Some(s.connection_timeout_secs),
                None => None,
            },
            DEFAULT_CONNECTION_TIMEOUT_SECS,
        ),
{
    match settings {
        Some(s) => s.connection_timeout_secs as u64,
        None => DEFAULT_CONNECTION_TIMEOUT_SECS as u64,
    }
}

/// Time to reach a jump host, in seconds.
pub fn get_jump_host_timeout(settings: Option<&ConnectionTimeoutSettings>) -> (r: u64)
    ensures
        r == timeout_or_default(
            match settings {
                Some(s) => Some(s.jump_host_timeout_secs),
                None => None,
            },
            DEFAULT_JUMP_HOST_TIMEOUT_SECS,
        ),
{
    match settings {
        Some(s) => s.jump_host_timeout_secs as u64,
        None => DEFAULT_JUMP_HOST_TIMEOUT_SECS as u64,
    }
}

/// Time to reach a forwarded local port, in seconds.
pub fn get_local_forward_timeout(settings: Option<&ConnectionTimeoutSettings>) -> (r: u64)
    ensures
        r == timeout_or_default(
            match settings {
                Some(s) => Some(s.local_forward_timeout_secs),
                None => None,
            },
            DEFAULT_LOCAL_FORWARD_TIMEOUT_SECS,
        ),
{
    match settings {
        Some(s) => s.local_forward_timeout_secs as u64,
        None => DEFAULT_LOCAL_FORWARD_TIMEOUT_SECS as u64,
    }
}

/// Time for a remote command, in seconds.
pub fn get_command_timeout(settings: Option<&ConnectionTimeoutSettings>) -> (r: u64)
    ensures
        r == timeout_or_default(
            match settings {
                Some(s) => Some(s.command_timeout_secs),
                None => None,
            },
            DEFAULT_COMMAND_TIMEOUT_SECS,
        ),
{
    match settings {
        Some(s) => s.command_timeout_secs as u64,
        None => DEFAULT_COMMAND_TIMEOUT_SECS as u64,
    }
}

/// Time for an SFTP operation, in seconds.
pub fn get_sftp_operation_timeout(settings: Option<&ConnectionTimeoutSettings>) -> (r: u64)
    ensures
        r == timeout_or_default(
            match settings {
                Some(s) => Some(s.sftp_operation_timeout_secs),
                None => None,
            },
            DEFAULT_SFTP_OPERATION_TIMEOUT_SECS,
        ),
{
    match settings {
        Some(s) => s.sftp_operation_timeout_secs as u64,
        None => DEFAULT_SFTP_OPERATION_TIMEOUT_SECS as u64,
    }
}

/// A message to the terminal of a session.
#[derive(Debug, Clone)]
pub enum ShellMsg {
    /// Bytes typed by the user.
    Data(Vec<u8>),
    /// The terminal window changed size.
    Resize { rows: u16, cols: u16 },
    /// The terminal closes.
    Exit,
}

/// Progress of a file operation, reported to the interface.
#[derive(Debug)]
pub struct ProgressPayload {
    pub id: String,
    pub transferred: u64,
    pub total: u64,
}

} // verus!
