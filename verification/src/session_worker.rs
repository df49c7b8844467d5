//! The decisions of the worker that owns an SSH session: what follows a
//! heartbeat round, how long it idles, how a streamed file transfer is
//! supervised, and how a bounded read accumulates.  The worker's loop, its
//! channels and threads are run by the caller.
use vstd::prelude::*;

use crate::clock::{elapsed_between, elapsed_ms};
use crate::heartbeat::{HeartbeatAction, HeartbeatResult};
use crate::text::{decimal, with_decimal};

verus! {

/// Commands taken from the queue per round before the session is polled.
pub const COMMANDS_PER_ROUND: usize = 10;

/// When the heartbeat state is reset after a reconnection.
#[derive(Debug, Clone, Copy, PartialEq, Eq, Structural)]
pub enum ResetRule {
    Never,
    /// Only when rebuilding the pool succeeded.
    OnSuccess,
    /// Whatever the outcome of rebuilding.
    Always,
}

/// What the worker does after a heartbeat round.
#[derive(Debug, Clone, Copy, PartialEq, Eq, Structural)]
pub struct HeartbeatFollowUp {
    /// Check the pooled sessions too (the main session answered).
    pub check_pool: bool,
    /// Send a keepalive on the main session now.
    pub send_keepalive: bool,
    /// Rebuild every pooled session.
    pub rebuild_pool: bool,
    pub reset: ResetRule,
}

/// The follow-up of a heartbeat round that ended with `result` and
/// recommends `action`.
pub open spec fn follow_up_spec(success: bool, action: HeartbeatAction) -> HeartbeatFollowUp {
    HeartbeatFollowUp {
        check_pool: success,
        send_keepalive: action == HeartbeatAction::SendKeepalive,
        rebuild_pool: action == HeartbeatAction::ReconnectBackground || action == HeartbeatAction::NotifyUser
            || action == HeartbeatAction::ForceReconnect,
        reset: match action {
            HeartbeatAction::ReconnectBackground => ResetRule::OnSuccess,
            HeartbeatAction::ForceReconnect => ResetRule::Always,
            _ => ResetRule::Never,
        },
    }
}

/// What follows a heartbeat round: a healthy session has the pool checked
/// as well; a keepalive is sent when recommended; the pool is rebuilt for a
/// background reconnection, a user notification or a forced reconnection,
/// and the heartbeat state is reset after a successful background
/// reconnection or any forced one.
pub fn plan_after_heartbeat(result: &HeartbeatResult, action: HeartbeatAction) -> (r: HeartbeatFollowUp)
    ensures
        r == follow_up_spec(*result is Success, action),
{
    let check_pool = match result {
        HeartbeatResult::Success => true,
        _ => false,
    };
    match action {
        HeartbeatAction::NoAction => HeartbeatFollowUp {
            check_pool,
            send_keepalive: false,
            rebuild_pool: false,
            reset: ResetRule::Never,
        },
        HeartbeatAction::SendKeepalive => HeartbeatFollowUp {
            check_pool,
            send_keepalive: true,
            rebuild_pool: false,
            reset: ResetRule::Never,
        },
        HeartbeatAction::ReconnectBackground => HeartbeatFollowUp {
            check_pool,
            send_keepalive: false,
            rebuild_pool: true,
            reset: ResetRule::OnSuccess,
        },
        HeartbeatAction::NotifyUser => HeartbeatFollowUp {
            check_pool,
            send_keepalive: false,
            rebuild_pool: true,
            reset: ResetRule::Never,
        },
        HeartbeatAction::ForceReconnect => HeartbeatFollowUp {
            check_pool,
            send_keepalive: false,
            rebuild_pool: true,
            reset: ResetRule::Always,
        },
    }
}

/// Milliseconds an idle round sleeps: the shortest heartbeat interval,
/// capped at 100 ms.
pub fn idle_sleep_ms(min_check_interval_secs: u64) -> (r: u64)
    ensures
        r == (if min_check_interval_secs * 1000 < 100 { min_check_interval_secs * 1000 } else { 100 }),
{
    if min_check_interval_secs == 0 {
        0
    } else {
        100
    }
}

/// Direction of a streamed transfer.
#[derive(Debug, Clone, Copy, PartialEq, Eq, Structural)]
pub enum StreamKind {
    Download,
    Upload,
}

/// Longest a streamed transfer may take, in seconds.
pub const STREAM_TIMEOUT_SECS: u64 = 300;
/// Longest a streamed transfer may go without progress, in seconds.
pub const STREAM_NO_PROGRESS_SECS: u64 = 30;
/// Blocked calls in a row after which a streamed transfer gives up.
pub const STREAM_MAX_WOULD_BLOCK: u32 = 100;

/// Supervision of one streamed transfer.  Times are milliseconds on the
/// clock of [`crate::clock`].
#[derive(Debug, Clone, Copy, PartialEq, Eq, Structural)]
pub struct StreamTransfer {
    pub kind: StreamKind,
    pub total: u64,
    pub transferred: u64,
    pub started_ms: u64,
    pub last_progress_ms: u64,
    pub last_emit_ms: u64,
    pub would_block_count: u32,
}

/// The refusal of a transfer that ran too long.
pub open spec fn stream_timeout_text(kind: StreamKind) -> Seq<char> {
    match kind {
        StreamKind::Download => "Download timeout after 300s"@,
        StreamKind::Upload => "Upload timeout after 300s"@,
    }
}

/// The refusal after too many blocked calls.
pub open spec fn would_block_text(count: u32) -> Seq<char> {
    "Too many WouldBlock errors ("@ + decimal(count as nat) + "), connection may be dead"@
}

impl StreamTransfer {
    /// A transfer of `total` bytes starting at `now`.
    pub fn start(kind: StreamKind, total: u64, now: u64) -> (r: Self)
        ensures
            r == (StreamTransfer {
                kind,
                total,
                transferred: 0,
                started_ms: now,
                last_progress_ms: now,
                last_emit_ms: now,
                would_block_count: 0,
            }),
    {
        StreamTransfer {
            kind,
            total,
            transferred: 0,
            started_ms: now,
            last_progress_ms: now,
            last_emit_ms: now,
            would_block_count: 0,
        }
    }

    /// Whether the transfer may go on at `now`: not after cancellation,
    /// not past five minutes in all, not after half a minute without
    /// progress.
    pub fn check(&self, cancelled: bool, now: u64) -> (r: Result<(), String>)
        ensures
            cancelled ==> (r matches Err(m) && m@ == "Cancelled"@),
            !cancelled && elapsed_between(self.started_ms, now) > 300_000 ==> (r matches Err(m) && m@
                == stream_timeout_text(self.kind)),
            !cancelled && elapsed_between(self.started_ms, now) <= 300_000 && elapsed_between(
                self.last_progress_ms,
                now,
            ) > 30_000 ==> (r matches Err(m) && m@ == "No progress for 30s, connection may be dead"@),
            !cancelled && elapsed_between(self.started_ms, now) <= 300_000 && elapsed_between(
                self.last_progress_ms,
                now,
            ) <= 30_000 ==> r is Ok,
    {
        if cancelled {
            return Err(String::from_str("Cancelled"));
        }
        if elapsed_ms(self.started_ms, now) > 300_000 {
            return Err(
                String::from_str(
                    match self.kind {
                        StreamKind::Download => "Download timeout after 300s",
                        StreamKind::Upload => "Upload timeout after 300s",
                    },
                ),
            );
        }
        if elapsed_ms(self.last_progress_ms, now) > 30_000 {
            return Err(String::from_str("No progress for 30s, connection may be dead"));
        }
        Ok(())
    }

    /// `n` bytes moved at `now`: progress is counted, the blocked-call
    /// count cleared, and progress is reported (the result) when more than
    /// 100 ms passed since the last report.
    pub fn on_bytes(&mut self, n: u64, now: u64) -> (r: Option<(u64, u64)>)
        requires
            old(self).transferred + n <= u64::MAX,
        ensures
            final(self).transferred == old(self).transferred + n,
            final(self).last_progress_ms == now,
            final(self).would_block_count == 0,
            final(self).kind == old(self).kind,
            final(self).total == old(self).total,
            final(self).started_ms == old(self).started_ms,
            elapsed_between(old(self).last_emit_ms, now) > 100 ==> r == Some(
                (final(self).transferred, old(self).total),
            ) && final(self).last_emit_ms == now,
            elapsed_between(old(self).last_emit_ms, now) <= 100 ==> r is None && final(self).last_emit_ms
                == old(self).last_emit_ms,
    {
        self.transferred = self.transferred + n;
        self.last_progress_ms = now;
        self.would_block_count = 0;
        if elapsed_ms(self.last_emit_ms, now) > 100 {
            self.last_emit_ms = now;
            Some((self.transferred, self.total))
        } else {
            None
        }
    }

    /// A call would have blocked: after more than 100 in a row the
    /// transfer gives up; otherwise the caller waits 5 ms.
    pub fn on_would_block(&mut self) -> (r: Result<(), String>)
        requires
            old(self).would_block_count < u32::MAX,
        ensures
            *final(self) == (StreamTransfer {
                would_block_count: (old(self).would_block_count + 1) as u32,
                ..*old(self)
            }),
            final(self).would_block_count > 100 ==> (r matches Err(m) && m@ == would_block_text(
                final(self).would_block_count,
            )),
            final(self).would_block_count <= 100 ==> r is Ok,
    {
        self.would_block_count = self.would_block_count + 1;
        if self.would_block_count > 100 {
            let m = with_decimal(String::from_str("Too many WouldBlock errors ("), self.would_block_count as u64).concat(
                "), connection may be dead",
            );
            proof {
                assert(m@ =~= would_block_text(self.would_block_count));
            }
            return Err(m);
        }
        Ok(())
    }

    /// The last progress report: all of the file.
    pub fn final_progress(&self) -> (r: (u64, u64))
        ensures
            r == (self.total, self.total),
    {
        (self.total, self.total)
    }
}

/// `buf` after a read of `chunk` when at most `max` bytes are wanted.
pub open spec fn after_read(buf: Seq<u8>, chunk: Seq<u8>, max: Option<usize>) -> Seq<u8> {
    match max {
        Some(m) => if buf.len() + chunk.len() > m { (buf + chunk).take(m as int) } else { buf + chunk },
        None => buf + chunk,
    }
}

/// Adds a chunk read from a file to `buf`, keeping at most `max` bytes;
/// returns whether the read is complete.
pub fn append_chunk(buf: &mut Vec<u8>, chunk: &[u8], max: Option<usize>) -> (done: bool)
    ensures
        final(buf)@ == after_read(old(buf)@, chunk@, max),
        done == (max matches Some(m) && old(buf)@.len() + chunk@.len() > m),
{
    let ghost start = buf@;
    let mut i: usize = 0;
    while i < chunk.len()
        invariant
            i <= chunk@.len(),
            buf@ == start + chunk@.take(i as int),
        decreases chunk@.len() - i,
    {
        buf.push(chunk[i]);
        proof {
            assert(chunk@.take(i + 1) =~= chunk@.take(i as int).push(chunk@[i as int]));
            assert(start + chunk@.take(i + 1) =~= (start + chunk@.take(i as int)).push(chunk@[i as int]));
        }
        i = i + 1;
    }
    proof {
        assert(chunk@.take(chunk@.len() as int) =~= chunk@);
    }
    match max {
        Some(m) => {
            if buf.len() > m {
                buf.truncate(m);
                true
            } else {
                false
            }
        },
        None => false,
    }
}

/// Whether a bounded read has all it wants before reading again.
pub fn read_is_full(len: usize, max: Option<usize>) -> (r: bool)
    ensures
        r == (max matches Some(m) && len >= m),
{
    match max {
        Some(m) => len >= m,
        None => false,
    }
}

} // verus!
