//! The transfer life cycle as a state machine whose transitions are checked
//! against a fixed table.
use vstd::prelude::*;

use crate::clock::{elapsed_between, elapsed_ms, now_ms};
use crate::transfer::types::{spec_is_active, spec_is_terminal, status_debug_name, TransferError, TransferStatus};

verus! {

/// The transitions the state machine allows.
pub open spec fn valid_transition(from: TransferStatus, to: TransferStatus) -> bool {
    match (from, to) {
        (TransferStatus::Pending, TransferStatus::Connecting) => true,
        (TransferStatus::Connecting, TransferStatus::Transferring) => true,
        (TransferStatus::Connecting, TransferStatus::Failed) => true,
        (TransferStatus::Connecting, TransferStatus::Cancelled) => true,
        (TransferStatus::Transferring, TransferStatus::Paused) => true,
        (TransferStatus::Transferring, TransferStatus::Completed) => true,
        (TransferStatus::Transferring, TransferStatus::Failed) => true,
        (TransferStatus::Transferring, TransferStatus::Cancelled) => true,
        (TransferStatus::Paused, TransferStatus::Transferring) => true,
        (TransferStatus::Paused, TransferStatus::Cancelled) => true,
        (TransferStatus::Failed, TransferStatus::Resuming) => true,
        (TransferStatus::Failed, TransferStatus::Cancelled) => true,
        (TransferStatus::Resuming, TransferStatus::Transferring) => true,
        (TransferStatus::Resuming, TransferStatus::Failed) => true,
        (TransferStatus::Resuming, TransferStatus::Cancelled) => true,
        _ => false,
    }
}

/// Message of a refused transition.
pub open spec fn transition_error_text(from: TransferStatus, to: TransferStatus) -> Seq<char> {
    "Invalid state transition: "@ + status_debug_name(from) + " -> "@ + status_debug_name(to)
}

/// Whether the table allows the transition from `from` to `to`; the error
/// names both statuses when it does not.
pub fn validate_transition(from: TransferStatus, to: TransferStatus) -> (r: Result<(), TransferError>)
    ensures
        r is Ok <==> valid_transition(from, to),
        r matches Err(e) ==> (e matches TransferError::CannotResume(m) && m@ == transition_error_text(from, to)),
{
    let valid = match (from, to) {
        (TransferStatus::Pending, TransferStatus::Connecting) => true,
        (TransferStatus::Connecting, TransferStatus::Transferring) => true,
        (TransferStatus::Connecting, TransferStatus::Failed) => true,
        (TransferStatus::Connecting, TransferStatus::Cancelled) => true,
        (TransferStatus::Transferring, TransferStatus::Paused) => true,
        (TransferStatus::Transferring, TransferStatus::Completed) => true,
        (TransferStatus::Transferring, TransferStatus::Failed) => true,
        (TransferStatus::Transferring, TransferStatus::Cancelled) => true,
        (TransferStatus::Paused, TransferStatus::Transferring) => true,
        (TransferStatus::Paused, TransferStatus::Cancelled) => true,
        (TransferStatus::Failed, TransferStatus::Resuming) => true,
        (TransferStatus::Failed, TransferStatus::Cancelled) => true,
        (TransferStatus::Resuming, TransferStatus::Transferring) => true,
        (TransferStatus::Resuming, TransferStatus::Failed) => true,
        (TransferStatus::Resuming, TransferStatus::Cancelled) => true,
        _ => false,
    };
    if valid {
        Ok(())
    } else {
        let msg = String::from_str("Invalid state transition: ")
            .concat(from.debug_name())
            .concat(" -> ")
            .concat(to.debug_name());
        Err(TransferError::CannotResume(msg))
    }
}

/// Abstract state of a transfer.
pub struct TransferStateView {
    pub id: Seq<char>,
    pub status: TransferStatus,
    pub transferred: u64,
    pub total: u64,
    pub created_at_ms: u64,
    pub last_progress_at_ms: u64,
    pub cancelled: bool,
    pub error: Option<Seq<char>>,
}

/// Progress and status of one transfer.  The status changes only along the
/// transitions of [`valid_transition`], and by cancellation.  Times are
/// milliseconds on the clock of [`crate::clock`].
pub struct TransferState {
    id: String,
    status: TransferStatus,
    transferred: u64,
    total: u64,
    created_at_ms: u64,
    last_progress_at_ms: u64,
    cancelled: bool,
    error: Option<String>,
}

impl View for TransferState {
    type V = TransferStateView;

    closed spec fn view(&self) -> TransferStateView {
        TransferStateView {
            id: self.id@,
            status: self.status,
            transferred: self.transferred,
            total: self.total,
            created_at_ms: self.created_at_ms,
            last_progress_at_ms: self.last_progress_at_ms,
            cancelled: self.cancelled,
            error: match self.error {
                Some(e) => Some(e@),
                None => None,
            },
        }
    }
}

/// `post` is `pre` with only the status replaced.
pub open spec fn only_status_changed(pre: TransferStateView, post: TransferStateView, s: TransferStatus) -> bool {
    post == TransferStateView { status: s, ..pre }
}

/// A pending transfer of `total` bytes created at `now`.
pub open spec fn fresh_state(id: Seq<char>, total: u64, now: u64) -> TransferStateView {
    TransferStateView {
        id,
        status: TransferStatus::Pending,
        transferred: 0,
        total,
        created_at_ms: now,
        last_progress_at_ms: now,
        cancelled: false,
        error: None,
    }
}

/// `pre` with `count` bytes transferred, progress made at `now`.
pub open spec fn progressed(pre: TransferStateView, count: u64, now: u64) -> TransferStateView {
    TransferStateView { transferred: count, last_progress_at_ms: now, ..pre }
}

/// `pre` after a report of `bytes` at `now`: raised if that is more,
/// unchanged otherwise.
pub open spec fn raised_to(pre: TransferStateView, bytes: u64, now: u64) -> TransferStateView {
    if bytes > pre.transferred {
        progressed(pre, bytes, now)
    } else {
        pre
    }
}

/// An active transfer made no progress for longer than `timeout_ms` at
/// `now`; a connecting one gets three times as long.
pub open spec fn stuck_at(v: TransferStateView, timeout_ms: u64, now: u64) -> bool {
    spec_is_active(v.status) && if v.status == TransferStatus::Connecting {
        elapsed_between(v.last_progress_at_ms, now) > timeout_ms * 3
    } else {
        elapsed_between(v.last_progress_at_ms, now) > timeout_ms
    }
}

impl TransferState {
    /// A pending transfer of `total` bytes created now.
    pub fn new(id: String, total: u64) -> (r: Self)
        ensures
            exists|now: u64| r@ == #[trigger] fresh_state(id@, total, now),
    {
        let now = now_ms();
        Self::new_at(id, total, now)
    }

    /// A pending transfer of `total` bytes created at `now`.
    pub fn new_at(id: String, total: u64, now: u64) -> (r: Self)
        ensures
            r@ == fresh_state(id@, total, now),
    {
        TransferState {
            id,
            status: TransferStatus::Pending,
            transferred: 0,
            total,
            created_at_ms: now,
            last_progress_at_ms: now,
            cancelled: false,
            error: None,
        }
    }

    /// The transfer's identifier.
    pub fn id(&self) -> (r: &str)
        ensures
            r@ == self@.id,
    {
        self.id.as_str()
    }

    /// The current status.
    pub fn status(&self) -> (r: TransferStatus)
        ensures
            r == self@.status,
    {
        self.status
    }

    /// Bytes transferred so far.
    pub fn transferred(&self) -> (r: u64)
        ensures
            r == self@.transferred,
    {
        self.transferred
    }

    /// Size of the file in bytes.
    pub fn total(&self) -> (r: u64)
        ensures
            r == self@.total,
    {
        self.total
    }

    /// Milliseconds since the transfer was created, measured at `now`.
    pub fn elapsed_at(&self, now: u64) -> (r: u64)
        ensures
            r == elapsed_between(self@.created_at_ms, now),
    {
        elapsed_ms(self.created_at_ms, now)
    }

    /// Milliseconds since the transfer was created, measured now.
    pub fn elapsed(&self) -> (r: u64)
        ensures
            exists|now: u64| r == #[trigger] elapsed_between(self@.created_at_ms, now),
    {
        self.elapsed_at(now_ms())
    }

    /// Milliseconds since the last progress, measured at `now`.
    pub fn time_since_progress_at(&self, now: u64) -> (r: u64)
        ensures
            r == elapsed_between(self@.last_progress_at_ms, now),
    {
        elapsed_ms(self.last_progress_at_ms, now)
    }

    /// Milliseconds since the last progress, measured now.
    pub fn time_since_progress(&self) -> (r: u64)
        ensures
            exists|now: u64| r == #[trigger] elapsed_between(self@.last_progress_at_ms, now),
    {
        self.time_since_progress_at(now_ms())
    }

    /// Whether the transfer was cancelled.
    pub fn is_cancelled(&self) -> (r: bool)
        ensures
            r == self@.cancelled,
    {
        self.cancelled
    }

    /// The failure message, if the transfer failed.
    pub fn error(&self) -> (r: Option<String>)
        ensures
            match r {
                Some(e) => self@.error == Some(e@),
                None => self@.error is None,
            },
    {
        match &self.error {
            Some(e) => Some(e.clone()),
            None => None,
        }
    }

    /// Raises the byte count to `bytes` if that is more, at `now`; returns
    /// whether it grew.  The count never goes down.
    pub fn update_transferred_at(&mut self, bytes: u64, now: u64) -> (r: bool)
        ensures
            r == (bytes > old(self)@.transferred),
            final(self)@ == raised_to(old(self)@, bytes, now),
    {
        if bytes > self.transferred {
            self.transferred = bytes;
            self.last_progress_at_ms = now;
            true
        } else {
            false
        }
    }

    /// Raises the byte count to `bytes` if that is more; returns whether it
    /// grew.
    pub fn update_transferred(&mut self, bytes: u64) -> (r: bool)
        ensures
            r == (bytes > old(self)@.transferred),
            exists|now: u64| final(self)@ == #[trigger] raised_to(old(self)@, bytes, now),
    {
        self.update_transferred_at(bytes, now_ms())
    }

    /// Adds `bytes` to the byte count at `now` and returns the new count.
    pub fn add_transferred_at(&mut self, bytes: u64, now: u64) -> (r: u64)
        requires
            old(self)@.transferred + bytes <= u64::MAX,
        ensures
            r == old(self)@.transferred + bytes,
            final(self)@ == progressed(old(self)@, r, now),
    {
        self.transferred = self.transferred + bytes;
        self.last_progress_at_ms = now;
        self.transferred
    }

    /// Adds `bytes` to the byte count and returns the new count.
    pub fn add_transferred(&mut self, bytes: u64) -> (r: u64)
        requires
            old(self)@.transferred + bytes <= u64::MAX,
        ensures
            r == old(self)@.transferred + bytes,
            exists|now: u64| final(self)@ == #[trigger] progressed(old(self)@, r, now),
    {
        self.add_transferred_at(bytes, now_ms())
    }

    /// Moves to `to` if the table allows it; otherwise nothing changes.
    fn transition(&mut self, to: TransferStatus) -> (r: Result<(), TransferError>)
        ensures
            r is Ok <==> valid_transition(old(self)@.status, to),
            r is Ok ==> only_status_changed(old(self)@, final(self)@, to),
            r is Err ==> final(self)@ == old(self)@,
            r matches Err(e) ==> (e matches TransferError::CannotResume(m) && m@
                == transition_error_text(old(self)@.status, to)),
    {
        validate_transition(self.status, to)?;
        self.status = to;
        Ok(())
    }

    /// Pending to connecting.
    pub fn start(&mut self) -> (r: Result<(), TransferError>)
        ensures
            r is Ok <==> old(self)@.status == TransferStatus::Pending,
            r is Ok ==> only_status_changed(old(self)@, final(self)@, TransferStatus::Connecting),
            r is Err ==> final(self)@ == old(self)@,
    {
        self.transition(TransferStatus::Connecting)
    }

    /// Connecting, paused or resuming to transferring.
    pub fn begin_transfer(&mut self) -> (r: Result<(), TransferError>)
        ensures
            r is Ok <==> valid_transition(old(self)@.status, TransferStatus::Transferring),
            r is Ok ==> only_status_changed(old(self)@, final(self)@, TransferStatus::Transferring),
            r is Err ==> final(self)@ == old(self)@,
    {
        self.transition(TransferStatus::Transferring)
    }

    /// Transferring to paused.
    pub fn pause(&mut self) -> (r: Result<(), TransferError>)
        ensures
            r is Ok <==> old(self)@.status == TransferStatus::Transferring,
            r is Ok ==> only_status_changed(old(self)@, final(self)@, TransferStatus::Paused),
            r is Err ==> final(self)@ == old(self)@,
    {
        self.transition(TransferStatus::Paused)
    }

    /// Paused to transferring, or failed to resuming; from any other status
    /// the transfer cannot be resumed and nothing changes.
    pub fn resume(&mut self) -> (r: Result<(), TransferError>)
        ensures
            r is Ok <==> (old(self)@.status == TransferStatus::Paused || old(self)@.status
                == TransferStatus::Failed),
            old(self)@.status == TransferStatus::Paused ==> only_status_changed(
                old(self)@,
                final(self)@,
                TransferStatus::Transferring,
            ),
            old(self)@.status == TransferStatus::Failed ==> only_status_changed(
                old(self)@,
                final(self)@,
                TransferStatus::Resuming,
            ),
            r matches Err(e) ==> final(self)@ == old(self)@ && (e matches TransferError::CannotResume(m) && m@
                == "Cannot resume from status: "@ + status_debug_name(old(self)@.status)),
    {
        let current = self.status;
        let new_status = match current {
            TransferStatus::Paused => TransferStatus::Transferring,
            TransferStatus::Failed => TransferStatus::Resuming,
            _ => {
                let msg = String::from_str("Cannot resume from status: ").concat(current.debug_name());
                return Err(TransferError::CannotResume(msg));
            },
        };
        self.transition(new_status)
    }

    /// Transferring to completed.
    pub fn complete(&mut self) -> (r: Result<(), TransferError>)
        ensures
            r is Ok <==> old(self)@.status == TransferStatus::Transferring,
            r is Ok ==> only_status_changed(old(self)@, final(self)@, TransferStatus::Completed),
            r is Err ==> final(self)@ == old(self)@,
    {
        self.transition(TransferStatus::Completed)
    }

    /// Connecting, transferring or resuming to failed, recording `error`.
    pub fn fail(&mut self, error: String) -> (r: Result<(), TransferError>)
        ensures
            r is Ok <==> valid_transition(old(self)@.status, TransferStatus::Failed),
            r is Ok ==> final(self)@ == (TransferStateView {
                status: TransferStatus::Failed,
                error: Some(error@),
                ..old(self)@
            }),
            r is Err ==> final(self)@ == old(self)@,
    {
        self.transition(TransferStatus::Failed)?;
        self.error = Some(error);
        Ok(())
    }

    /// Marks the transfer cancelled, and moves any status that is not
    /// terminal to cancelled; a terminal status stays and is reported.
    pub fn cancel(&mut self) -> (r: Result<(), TransferError>)
        ensures
            r is Ok <==> !spec_is_terminal(old(self)@.status),
            final(self)@ == (TransferStateView {
                cancelled: true,
                status: if r is Ok { TransferStatus::Cancelled } else { old(self)@.status },
                ..old(self)@
            }),
            r matches Err(e) ==> (e matches TransferError::CannotResume(m) && m@
                == "Cannot cancel from terminal status: "@ + status_debug_name(old(self)@.status)),
    {
        self.cancelled = true;
        if !self.status.is_terminal() {
            self.status = TransferStatus::Cancelled;
            Ok(())
        } else {
            let msg = String::from_str("Cannot cancel from terminal status: ").concat(self.status.debug_name());
            Err(TransferError::CannotResume(msg))
        }
    }

    /// Whether an active transfer has made no progress for longer than
    /// `timeout_ms` at `now`; a connecting transfer gets three times as long.
    pub fn is_stuck_at(&self, timeout_ms: u64, now: u64) -> (r: bool)
        requires
            timeout_ms <= u64::MAX / 3,
        ensures
            r == stuck_at(self@, timeout_ms, now),
    {
        if !self.status.is_active() {
            return false;
        }
        let since = self.time_since_progress_at(now);
        if self.status == TransferStatus::Connecting {
            return since > timeout_ms * 3;
        }
        since > timeout_ms
    }

    /// Whether an active transfer has made no progress for longer than
    /// `timeout_ms`, measured now.
    pub fn is_stuck(&self, timeout_ms: u64) -> (r: bool)
        requires
            timeout_ms <= u64::MAX / 3,
        ensures
            exists|now: u64| r == #[trigger] stuck_at(self@, timeout_ms, now),
    {
        self.is_stuck_at(timeout_ms, now_ms())
    }

    /// Progress in thousandths of the total, rounded down; 0 when the total
    /// is 0.
    pub fn progress_permille(&self) -> (r: u128)
        ensures
            r == (if self@.total == 0 { 0 } else { (self@.transferred as int) * 1000 / (self@.total as int) }),
    {
        if self.total == 0 {
            0
        } else {
            (self.transferred as u128) * 1000 / (self.total as u128)
        }
    }

    /// A snapshot of the identifier, status, byte counts and cancellation.
    pub fn handle(&self) -> (r: TransferStateHandle)
        ensures
            r.id@ == self@.id,
            r.status == self@.status,
            r.transferred == self@.transferred,
            r.total == self@.total,
            r.is_cancelled == self@.cancelled,
    {
        TransferStateHandle {
            id: self.id.clone(),
            status: self.status,
            transferred: self.transferred,
            total: self.total,
            is_cancelled: self.cancelled,
        }
    }
}

/// A snapshot of a transfer's state for use elsewhere.
#[derive(Debug, Clone)]
pub struct TransferStateHandle {
    pub id: String,
    pub status: TransferStatus,
    pub transferred: u64,
    pub total: u64,
    pub is_cancelled: bool,
}

impl TransferStateHandle {
    /// The transfer's identifier.
    pub fn id(&self) -> (r: &str)
        ensures
            r@ == self.id@,
    {
        self.id.as_str()
    }

    /// The status when the snapshot was taken.
    pub fn status(&self) -> (r: TransferStatus)
        ensures
            r == self.status,
    {
        self.status
    }

    /// Bytes transferred when the snapshot was taken.
    pub fn transferred(&self) -> (r: u64)
        ensures
            r == self.transferred,
    {
        self.transferred
    }

    /// Size of the file in bytes.
    pub fn total(&self) -> (r: u64)
        ensures
            r == self.total,
    {
        self.total
    }

    /// Whether the transfer was cancelled when the snapshot was taken.
    pub fn is_cancelled(&self) -> (r: bool)
        ensures
            r == self.is_cancelled,
    {
        self.is_cancelled
    }
}

/// Completed and cancelled transfers never move again, and the only way out
/// of a failure is resuming (or cancelling through the table).
pub proof fn law_terminal_statuses_are_final(to: TransferStatus)
    ensures
        !valid_transition(TransferStatus::Completed, to),
        !valid_transition(TransferStatus::Cancelled, to),
        valid_transition(TransferStatus::Failed, to) ==> (to == TransferStatus::Resuming || to
            == TransferStatus::Cancelled),
{
}

/// Every allowed transition changes the status, and a pending transfer can
/// only start connecting.
pub proof fn law_transitions_move(from: TransferStatus, to: TransferStatus)
    ensures
        valid_transition(from, to) ==> from != to,
        valid_transition(TransferStatus::Pending, to) <==> to == TransferStatus::Connecting,
{
}

/// Every status that can be cancelled by the table can be cancelled by
/// `cancel`, except a failure, which is terminal.
pub proof fn law_cancel_matches_table(from: TransferStatus)
    ensures
        from != TransferStatus::Failed ==> (valid_transition(from, TransferStatus::Cancelled) <==> (
        !spec_is_terminal(from) && from != TransferStatus::Pending)),
{
}

/// A transfer resumed after a failure can go on: from every status that can
/// fail, failing, then resuming (failed to resuming), then beginning the
/// transfer (resuming to transferring) are all allowed, so `fail`, `resume`
/// and `begin_transfer` end in transferring.  Beginning the transfer is
/// allowed exactly from connecting, paused and resuming.
pub proof fn law_resumed_transfer_goes_on(from: TransferStatus)
    ensures
        valid_transition(from, TransferStatus::Failed) ==> (valid_transition(
            TransferStatus::Failed,
            TransferStatus::Resuming,
        ) && valid_transition(TransferStatus::Resuming, TransferStatus::Transferring)),
        valid_transition(from, TransferStatus::Transferring) <==> (from == TransferStatus::Connecting
            || from == TransferStatus::Paused || from == TransferStatus::Resuming),
        valid_transition(from, TransferStatus::Failed) <==> (from == TransferStatus::Connecting || from
            == TransferStatus::Transferring || from == TransferStatus::Resuming),
{
}

} // verus!
