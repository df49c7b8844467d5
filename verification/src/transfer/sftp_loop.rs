//! The decisions of a chunked SFTP copy: when to stop for cancellation or a
//! stall, how progress is counted from a resume offset, when a blocked read
//! or write is retried, and which error each failed file operation gives.
//! The caller performs the reads, writes and waits.
use vstd::prelude::*;

use crate::clock::elapsed_between;
use crate::clock::elapsed_ms;
use crate::error_classifier::{IoErrorInfo, IoErrorKind};
use crate::text::{decimal, with_decimal};
use crate::transfer::types::{io_error_spec, spec_is_connection_error, TransferError, TransferSettings};

verus! {

/// A file operation of a copy that can fail.
#[derive(Debug, Clone, Copy, PartialEq, Eq, Structural)]
pub enum CopyStep {
    OpenRemoteForRead,
    StatRemote,
    CreateLocal,
    WriteLocal,
    FlushLocal,
    StatLocal,
    OpenLocalForRead,
    CreateRemote,
    ReadLocal,
    SeekRemote,
    OpenLocalForWrite,
    SeekLocal,
    OpenRemoteForWrite,
}

/// Kind of copy, as named in a timeout.
#[derive(Debug, Clone, Copy, PartialEq, Eq, Structural)]
pub enum CopyKind {
    Download,
    Upload,
    ResumeDownload,
    ResumeUpload,
}

/// Debug form of a whole number of seconds, as a `Duration` prints it.
pub open spec fn secs_text(secs: u64) -> Seq<char> {
    decimal(secs as nat) + "s"@
}

/// Text of a copy that ran past the operation timeout.
pub open spec fn timed_out_text(kind: CopyKind, secs: u64) -> Seq<char> {
    match kind {
        CopyKind::Download => "Download operation timed out after "@ + secs_text(secs),
        CopyKind::Upload => "Upload operation timed out after "@ + secs_text(secs),
        CopyKind::ResumeDownload => "Resume download timed out after "@ + secs_text(secs),
        CopyKind::ResumeUpload => "Resume upload timed out after "@ + secs_text(secs),
    }
}

/// The error of a file operation `step` that failed with `detail`.
pub fn step_error(step: CopyStep, detail: &str) -> (r: TransferError)
    ensures
        match step {
            CopyStep::OpenRemoteForRead => r matches TransferError::InvalidPath(m) && m@ == "Failed to open remote file: "@ + detail@,
            CopyStep::StatRemote => r matches TransferError::Unknown(m) && m@ == "Failed to stat remote file: "@ + detail@,
            CopyStep::CreateLocal => r matches TransferError::DiskFull(m) && m@ == "Failed to create local file: "@ + detail@,
            CopyStep::WriteLocal => r matches TransferError::DiskFull(m) && m@ == "Failed to write to local file: "@ + detail@,
            CopyStep::FlushLocal => r matches TransferError::DiskFull(m) && m@ == "Failed to flush local file: "@ + detail@,
            CopyStep::StatLocal => r matches TransferError::InvalidPath(m) && m@ == "Failed to stat local file: "@ + detail@,
            CopyStep::OpenLocalForRead => r matches TransferError::InvalidPath(m) && m@ == "Failed to open local file: "@ + detail@,
            CopyStep::CreateRemote => r matches TransferError::PermissionDenied(m) && m@ == "Failed to create remote file: "@ + detail@,
            CopyStep::ReadLocal => r matches TransferError::InvalidPath(m) && m@ == "Failed to read from local file: "@ + detail@,
            CopyStep::SeekRemote => r matches TransferError::CannotResume(m) && m@ == "Failed to seek in remote file: "@ + detail@,
            CopyStep::OpenLocalForWrite => r matches TransferError::DiskFull(m) && m@ == "Failed to open local file: "@ + detail@,
            CopyStep::SeekLocal => r matches TransferError::CannotResume(m) && m@ == "Failed to seek in local file: "@ + detail@,
            CopyStep::OpenRemoteForWrite => r matches TransferError::PermissionDenied(m) && m@ == "Failed to open remote file: "@ + detail@,
        },
{
    let prefix = match step {
        CopyStep::OpenRemoteForRead => "Failed to open remote file: ",
        CopyStep::StatRemote => "Failed to stat remote file: ",
        CopyStep::CreateLocal => "Failed to create local file: ",
        CopyStep::WriteLocal => "Failed to write to local file: ",
        CopyStep::FlushLocal => "Failed to flush local file: ",
        CopyStep::StatLocal => "Failed to stat local file: ",
        CopyStep::OpenLocalForRead => "Failed to open local file: ",
        CopyStep::CreateRemote => "Failed to create remote file: ",
        CopyStep::ReadLocal => "Failed to read from local file: ",
        CopyStep::SeekRemote => "Failed to seek in remote file: ",
        CopyStep::OpenLocalForWrite => "Failed to open local file: ",
        CopyStep::SeekLocal => "Failed to seek in local file: ",
        CopyStep::OpenRemoteForWrite => "Failed to open remote file: ",
    };
    let m = String::from_str(prefix).concat(detail);
    match step {
        CopyStep::OpenRemoteForRead | CopyStep::StatLocal | CopyStep::OpenLocalForRead | CopyStep::ReadLocal => {
            TransferError::InvalidPath(m)
        },
        CopyStep::StatRemote => TransferError::Unknown(m),
        CopyStep::CreateLocal | CopyStep::WriteLocal | CopyStep::FlushLocal | CopyStep::OpenLocalForWrite => {
            TransferError::DiskFull(m)
        },
        CopyStep::CreateRemote | CopyStep::OpenRemoteForWrite => TransferError::PermissionDenied(m),
        CopyStep::SeekRemote | CopyStep::SeekLocal => TransferError::CannotResume(m),
    }
}

/// The error of a copy that ran past the operation timeout of `secs`
/// seconds.
pub fn operation_timed_out(kind: CopyKind, secs: u64) -> (r: TransferError)
    ensures
        r matches TransferError::Timeout(m) && m@ == timed_out_text(kind, secs),
{
    let prefix = match kind {
        CopyKind::Download => "Download operation timed out after ",
        CopyKind::Upload => "Upload operation timed out after ",
        CopyKind::ResumeDownload => "Resume download timed out after ",
        CopyKind::ResumeUpload => "Resume upload timed out after ",
    };
    let m = with_decimal(String::from_str(prefix), secs).concat("s");
    proof {
        assert(m@ =~= timed_out_text(kind, secs));
    }
    TransferError::Timeout(m)
}

/// A failed chunk read or write: errors of the connection become a lost
/// connection, others stay.
pub fn chunk_failure(e: TransferError) -> (r: TransferError)
    ensures
        spec_is_connection_error(e) ==> r is ConnectionLost,
        !spec_is_connection_error(e) ==> r == e,
{
    if e.is_connection_error() {
        TransferError::ConnectionLost
    } else {
        e
    }
}

/// Progress of one copy.  Byte counts include the resume offset; times are
/// milliseconds on the clock of [`crate::clock`].
#[derive(Debug, Clone, Copy, PartialEq, Eq, Structural)]
pub struct CopyLoop {
    pub offset: u64,
    pub transferred: u64,
    pub file_size: u64,
    pub last_progress_ms: u64,
    pub no_progress_secs: u64,
}

impl CopyLoop {
    /// A copy starting at `offset` of a file of `file_size` bytes at `now`,
    /// stalling after the no-progress timeout of `settings`.
    pub fn start(offset: u64, file_size: u64, settings: &TransferSettings, now: u64) -> (r: Self)
        ensures
            r == (CopyLoop {
                offset,
                transferred: offset,
                file_size,
                last_progress_ms: now,
                no_progress_secs: settings.no_progress_timeout_secs as u64,
            }),
    {
        CopyLoop {
            offset,
            transferred: offset,
            file_size,
            last_progress_ms: now,
            no_progress_secs: settings.no_progress_timeout(),
        }
    }

    /// Whether the next chunk may be copied at `now`: not after
    /// cancellation, and not once no progress was made for longer than the
    /// no-progress timeout.
    pub fn before_chunk(&self, cancelled: bool, now: u64) -> (r: Result<(), TransferError>)
        requires
            self.no_progress_secs <= u32::MAX,
        ensures
            cancelled ==> r matches Err(TransferError::Cancelled),
            !cancelled && elapsed_between(self.last_progress_ms, now) > self.no_progress_secs * 1000 ==> (
            r matches Err(TransferError::Timeout(m)) && m@ == "No progress for "@ + secs_text(self.no_progress_secs)),
            !cancelled && elapsed_between(self.last_progress_ms, now) <= self.no_progress_secs * 1000 ==> r is Ok,
    {
        if cancelled {
            return Err(TransferError::Cancelled);
        }
        if elapsed_ms(self.last_progress_ms, now) > self.no_progress_secs * 1000 {
            let m = with_decimal(String::from_str("No progress for "), self.no_progress_secs).concat("s");
            proof {
                assert(m@ =~= "No progress for "@ + secs_text(self.no_progress_secs));
            }
            return Err(TransferError::Timeout(m));
        }
        Ok(())
    }

    /// A chunk of `bytes` was copied at `now`; returns the progress to
    /// report: bytes so far and the file size.
    pub fn after_chunk(&mut self, bytes: u64, now: u64) -> (r: (u64, u64))
        requires
            old(self).transferred + bytes <= u64::MAX,
        ensures
            *final(self) == (CopyLoop {
                transferred: (old(self).transferred + bytes) as u64,
                last_progress_ms: now,
                ..*old(self)
            }),
            r == (final(self).transferred, old(self).file_size),
    {
        self.transferred = self.transferred + bytes;
        self.last_progress_ms = now;
        (self.transferred, self.file_size)
    }

    /// Bytes copied by this run, without the resume offset.
    pub fn finish(&self) -> (r: u64)
        requires
            self.transferred >= self.offset,
        ensures
            r == self.transferred - self.offset,
    {
        self.transferred - self.offset
    }
}

/// Outcome of one read or write call on a file.
#[derive(Debug)]
pub enum IoOutcome {
    /// The call moved this many bytes.
    Done(usize),
    /// The call failed.
    Failed(IoErrorInfo),
}

/// What to do after a read call.
#[derive(Debug)]
pub enum ReadStep {
    /// The read gave this many bytes (0 at the end of the file).
    Got(usize),
    /// Wait the retry delay and read again.
    Retry,
    /// Give up with this error.
    Fail(TransferError),
}

/// The decision after read attempt `attempt` (from 0) ended with `outcome`:
/// a blocked read is retried while fewer than `max_attempts` retries were
/// made; other failures are mapped by their kind.
pub fn read_step(outcome: IoOutcome, attempt: u32, max_attempts: u32) -> (r: ReadStep)
    ensures
        match outcome {
            IoOutcome::Done(n) => r matches ReadStep::Got(k) && k == n,
            IoOutcome::Failed(e) => if e.kind == IoErrorKind::WouldBlock && attempt < max_attempts {
                r is Retry
            } else {
                r matches ReadStep::Fail(err) && err == io_error_spec(e)
            },
        },
{
    match outcome {
        IoOutcome::Done(n) => ReadStep::Got(n),
        IoOutcome::Failed(e) => {
            if e.kind == IoErrorKind::WouldBlock && attempt < max_attempts {
                ReadStep::Retry
            } else {
                ReadStep::Fail(TransferError::from_io_error(&e))
            }
        },
    }
}

/// Progress of writing one chunk.
#[derive(Debug, Clone, Copy, PartialEq, Eq, Structural)]
pub struct ChunkWrite {
    pub len: usize,
    pub written: usize,
    pub attempt: u32,
    pub max_attempts: u32,
}

/// What to do next while writing a chunk.
#[derive(Debug)]
pub enum WriteStep {
    /// Write the bytes from this position on.
    WriteFrom(usize),
    /// Wait the retry delay, then write from this position.
    RetryFrom(usize),
    /// The whole chunk was written; this many bytes.
    Done(usize),
    /// Give up with this error.
    Fail(TransferError),
}

impl ChunkWrite {
    /// Writing a chunk of `len` bytes, retrying a blocked write up to
    /// `max_attempts` times in all.
    pub fn new(len: usize, max_attempts: u32) -> (r: Self)
        ensures
            r == (ChunkWrite { len, written: 0, attempt: 0, max_attempts }),
    {
        ChunkWrite { len, written: 0, attempt: 0, max_attempts }
    }

    /// The first step.
    pub fn first(&self) -> (r: WriteStep)
        ensures
            self.written < self.len ==> (r matches WriteStep::WriteFrom(p) && p == self.written),
            self.written >= self.len ==> (r matches WriteStep::Done(n) && n == self.written),
    {
        if self.written < self.len {
            WriteStep::WriteFrom(self.written)
        } else {
            WriteStep::Done(self.written)
        }
    }

    /// The decision after a write call ended with `outcome`: no progress is
    /// an error, progress moves on until the chunk is written, a blocked
    /// write is retried while retries are left, and other failures are
    /// mapped by their kind.
    pub fn after_write(&mut self, outcome: IoOutcome) -> (r: WriteStep)
        requires
            old(self).written < old(self).len,
            outcome matches IoOutcome::Done(n) ==> old(self).written + n <= old(self).len,
        ensures
            final(self).len == old(self).len,
            final(self).max_attempts == old(self).max_attempts,
            match outcome {
                IoOutcome::Done(n) => if n == 0 {
                    r matches WriteStep::Fail(TransferError::Unknown(m)) && m@ == "Write returned 0 bytes"@
                } else {
                    &&& final(self).written == old(self).written + n
                    &&& final(self).attempt == old(self).attempt
                    &&& final(self).written < final(self).len ==> (r matches WriteStep::WriteFrom(p) && p
                        == final(self).written)
                    &&& final(self).written == final(self).len ==> (r matches WriteStep::Done(k) && k
                        == final(self).len)
                },
                IoOutcome::Failed(e) => if e.kind == IoErrorKind::WouldBlock {
                    if old(self).attempt < old(self).max_attempts {
                        &&& final(self).attempt == old(self).attempt + 1
                        &&& final(self).written == old(self).written
                        &&& r matches WriteStep::RetryFrom(p) && p == old(self).written
                    } else {
                        r matches WriteStep::Fail(TransferError::WouldBlock)
                    }
                } else {
                    r matches WriteStep::Fail(err) && err == io_error_spec(e)
                },
            },
    {
        match outcome {
            IoOutcome::Done(n) => {
                if n == 0 {
                    return WriteStep::Fail(TransferError::Unknown(String::from_str("Write returned 0 bytes")));
                }
                self.written = self.written + n;
                if self.written < self.len {
                    WriteStep::WriteFrom(self.written)
                } else {
                    WriteStep::Done(self.written)
                }
            },
            IoOutcome::Failed(e) => {
                if e.kind == IoErrorKind::WouldBlock {
                    if self.attempt < self.max_attempts {
                        self.attempt = self.attempt + 1;
                        WriteStep::RetryFrom(self.written)
                    } else {
                        WriteStep::Fail(TransferError::WouldBlock)
                    }
                } else {
                    WriteStep::Fail(TransferError::from_io_error(&e))
                }
            },
        }
    }
}

} // verus!
