//! The transfer manager: the registry of running transfers, their
//! statistics, and the decisions taken when a transfer starts, pauses,
//! resumes, is cancelled or finishes.  Moving the bytes, saving checkpoint
//! files and sending events to the interface are left to the caller, which
//! runs each step here and carries out what it returns.
use vstd::prelude::*;

use crate::clock::{elapsed_between, elapsed_ms};
use crate::text::{decimal, signed_decimal, with_decimal, with_signed_decimal, str_eq, lemma_decimal_injective};
use crate::transfer::checkpoint::{CheckpointManager, LocalFileState, TransferCheckpoint};
use crate::transfer::observability::TransferHealth;
use crate::transfer::pool::{
    AcquireStep,
    PoolStats,
    TransferPool,
    acquire_outcome,
    connection_total,
    entries_after_cleanup,
    entry_slot,
    has_entry,
    idle_count,
    idle_total,
    opened_entries,
    release_outcome,
};
use crate::transfer::state::{TransferState, TransferStateView, valid_transition};
use crate::transfer::types::{
    error_text, spec_is_active, spec_is_terminal, TransferError, TransferEvent, TransferOperation,
    TransferSettings, TransferStatus,
};

verus! {

/// Counters over the transfers of one manager.  Times are milliseconds on
/// the clock of [`crate::clock`].
#[derive(Debug, Clone, Copy, PartialEq, Eq, Structural)]
pub struct TransferStats {
    pub total_transfers: usize,
    pub active_transfers: usize,
    pub completed_transfers: usize,
    pub failed_transfers: usize,
    pub cancelled_transfers: usize,
    pub total_bytes_transferred: u64,
    pub last_transfer_time_ms: Option<u64>,
}

impl Default for TransferStats {
    fn default() -> (r: Self)
        ensures
            r == (TransferStats {
                total_transfers: 0,
                active_transfers: 0,
                completed_transfers: 0,
                failed_transfers: 0,
                cancelled_transfers: 0,
                total_bytes_transferred: 0,
                last_transfer_time_ms: None,
            }),
    {
        TransferStats {
            total_transfers: 0,
            active_transfers: 0,
            completed_transfers: 0,
            failed_transfers: 0,
            cancelled_transfers: 0,
            total_bytes_transferred: 0,
            last_transfer_time_ms: None,
        }
    }
}

/// Identifier of the transfer numbered `n`.
pub open spec fn transfer_id_text(n: usize) -> Seq<char> {
    "transfer_"@ + decimal(n as nat)
}

/// The client a checkpoint is filed under: the connection's identifier, or
/// `unknown`.
pub open spec fn client_text(id: Option<i64>) -> Seq<char> {
    match id {
        Some(n) => signed_decimal(n as int),
        None => "unknown"@,
    }
}

/// The error when no transfer has the identifier `id`.
pub open spec fn not_found_text(id: Seq<char>) -> Seq<char> {
    "Transfer not found: "@ + id
}

/// `i` is the first transfer of `s` with identifier `id`.
pub open spec fn is_first_transfer(s: Seq<TransferStateView>, id: Seq<char>, i: int) -> bool {
    &&& 0 <= i < s.len()
    &&& s[i].id == id
    &&& forall|k: int| 0 <= k < i ==> s[k].id != id
}

/// `s` holds a transfer with identifier `id`.
pub open spec fn has_transfer(s: Seq<TransferStateView>, id: Seq<char>) -> bool {
    exists|i: int| 0 <= i < s.len() && s[i].id == id
}

/// The position of the transfer `id` in `s`.
pub open spec fn transfer_slot(s: Seq<TransferStateView>, id: Seq<char>) -> int {
    choose|i: int| is_first_transfer(s, id, i)
}

/// The registry after registering `v`: it replaces the transfer with the
/// same identifier, or is added at the end.
pub open spec fn registered(s: Seq<TransferStateView>, v: TransferStateView) -> Seq<TransferStateView> {
    if has_transfer(s, v.id) {
        s.update(transfer_slot(s, v.id), v)
    } else {
        s.push(v)
    }
}

/// Number of transfers of `s` stuck at `now` for a stall time of `ms`.
pub open spec fn stuck_count(s: Seq<TransferStateView>, ms: u64, now: u64) -> nat
    decreases s.len(),
{
    if s.len() == 0 {
        0
    } else {
        stuck_count(s.drop_last(), ms, now) + if is_stuck_view(s.last(), ms, now) { 1nat } else { 0nat }
    }
}

/// Whether a transfer made no progress for too long at `now`: an active
/// transfer stalls after `ms`, a connecting one after three times as long.
pub open spec fn is_stuck_view(v: TransferStateView, ms: u64, now: u64) -> bool {
    spec_is_active(v.status) && if v.status == TransferStatus::Connecting {
        elapsed_between(v.last_progress_at_ms, now) > ms * 3
    } else {
        elapsed_between(v.last_progress_at_ms, now) > ms
    }
}

/// Average speed since the last completed transfer, in bytes per second,
/// capped at the largest `u64`.
pub open spec fn average_speed(stats: TransferStats, now: u64) -> u64 {
    match stats.last_transfer_time_ms {
        Some(t) => if elapsed_between(t, now) > 0 && stats.total_bytes_transferred > 0 {
            let v = stats.total_bytes_transferred * 1000 / (elapsed_between(t, now) as int);
            if v > u64::MAX { u64::MAX } else { v as u64 }
        } else {
            0
        },
        None => 0,
    }
}

/// What a started transfer needs: its identifier, its state, and the
/// checkpoint to save first when resuming is enabled.
pub struct StartPlan {
    pub transfer_id: String,
    pub state: TransferState,
    pub checkpoint: Option<TransferCheckpoint>,
}

/// What a resumed transfer needs.
pub struct ResumePlan {
    pub event: TransferEvent,
    pub operation: TransferOperation,
    pub local_path: String,
    pub remote_path: String,
    pub offset: u64,
    pub file_size: u64,
}

/// Registry and statistics of the transfers of one connection.
pub struct TransferManager {
    client_id: Option<i64>,
    settings: TransferSettings,
    pool: TransferPool,
    transfers: Vec<TransferState>,
    checkpoint_manager: CheckpointManager,
    stats: TransferStats,
    next_id: usize,
}

impl TransferManager {
    /// The transfers, as views, in registration order.
    pub closed spec fn registry(&self) -> Seq<TransferStateView> {
        self.transfers@.map_values(|t: TransferState| t@)
    }

    /// The statistics.
    pub closed spec fn stats_of(&self) -> TransferStats {
        self.stats
    }

    /// The number the next transfer gets.
    pub closed spec fn next_number(&self) -> usize {
        self.next_id
    }

    /// The settings.
    pub closed spec fn settings_of(&self) -> TransferSettings {
        self.settings
    }

    /// The connection's identifier.
    pub closed spec fn client_of(&self) -> Option<i64> {
        self.client_id
    }

    /// The connection pool.
    pub closed spec fn pool_of(&self) -> TransferPool {
        self.pool
    }

    /// The checkpoint store.
    pub closed spec fn checkpoint_store(&self) -> CheckpointManager {
        self.checkpoint_manager
    }

    /// A manager for the connection `client_id` under `settings`, given the
    /// outcome of setting up its checkpoint store.
    pub fn new(
        client_id: Option<i64>,
        settings: TransferSettings,
        checkpoints: Result<CheckpointManager, TransferError>,
    ) -> (r: Result<Self, TransferError>)
        ensures
            checkpoints is Err ==> r is Err && r->Err_0 == checkpoints->Err_0,
            checkpoints is Ok ==> r is Ok,
            r matches Ok(m) ==> {
                &&& m.registry() == Seq::<TransferStateView>::empty()
                &&& m.stats_of() == (TransferStats {
                    total_transfers: 0,
                    active_transfers: 0,
                    completed_transfers: 0,
                    failed_transfers: 0,
                    cancelled_transfers: 0,
                    total_bytes_transferred: 0,
                    last_transfer_time_ms: None,
                })
                &&& m.next_number() == 1
                &&& m.settings_of() == settings
                &&& m.client_of() == client_id
                &&& m.pool_of().entries() == Seq::<crate::transfer::pool::PoolEntryView>::empty()
                &&& m.pool_of().settings() == settings
                &&& (checkpoints matches Ok(c) && m.checkpoint_store() == c)
            },
    {
        let checkpoint_manager = match checkpoints {
            Ok(c) => c,
            Err(e) => return Err(e),
        };
        let r = TransferManager {
            client_id,
            settings,
            pool: TransferPool::new(settings),
            transfers: Vec::new(),
            checkpoint_manager,
            stats: TransferStats::default(),
            next_id: 1,
        };
        proof {
            assert(r.registry() =~= Seq::<TransferStateView>::empty());
        }
        Ok(r)
    }

    /// The checkpoint store.
    pub fn checkpoints(&self) -> (r: &CheckpointManager)
        ensures
            *r == self.checkpoint_store(),
    {
        &self.checkpoint_manager
    }

    fn find_transfer(&self, transfer_id: &str) -> (r: Option<usize>)
        ensures
            match r {
                Some(i) => is_first_transfer(self.registry(), transfer_id@, i as int) && transfer_slot(
                    self.registry(),
                    transfer_id@,
                ) == i,
                None => !has_transfer(self.registry(), transfer_id@),
            },
    {
        let mut i: usize = 0;
        while i < self.transfers.len()
            invariant
                i <= self.transfers@.len(),
                forall|k: int| 0 <= k < i ==> self.registry()[k].id != transfer_id@,
            decreases self.transfers@.len() - i,
        {
            if str_eq(self.transfers[i].id(), transfer_id) {
                proof {
                    lemma_first_transfer_unique(self.registry(), transfer_id@, i as int);
                }
                return Some(i);
            }
            i = i + 1;
        }
        None
    }

    /// Starts a transfer at `now` of `local_path` to or from `remote_path`,
    /// given the outcome of reading the local file's size.  The next number
    /// is taken whatever the outcome; a size that could not be read is an
    /// invalid path.  Otherwise the transfer is pending and, when resuming
    /// is enabled, comes with its first checkpoint.  Register it with
    /// [`TransferManager::register_started`] once that checkpoint is saved.
    pub fn start_transfer_at(
        &mut self,
        operation: TransferOperation,
        local_path: String,
        remote_path: String,
        file_size: Result<u64, String>,
        now: u64,
    ) -> (r: Result<StartPlan, TransferError>)
        ensures
            final(self).checkpoint_store() == old(self).checkpoint_store(),
            final(self).next_number() == old(self).next_number().wrapping_add(1),
            final(self).registry() == old(self).registry(),
            final(self).stats_of() == old(self).stats_of(),
            final(self).settings_of() == old(self).settings_of(),
            final(self).client_of() == old(self).client_of(),
            final(self).pool_of() == old(self).pool_of(),
            match file_size {
                Err(e) => r matches Err(TransferError::InvalidPath(m)) && m@ == "Failed to stat file: "@ + e@,
                Ok(size) => r matches Ok(plan) && {
                    &&& plan.transfer_id@ == transfer_id_text(old(self).next_number())
                    &&& plan.state@ == (TransferStateView {
                        id: transfer_id_text(old(self).next_number()),
                        status: TransferStatus::Pending,
                        transferred: 0,
                        total: size,
                        created_at_ms: now,
                        last_progress_at_ms: now,
                        cancelled: false,
                        error: None,
                    })
                    &&& plan.checkpoint is Some <==> old(self).settings_of().enable_resume
                    &&& plan.checkpoint matches Some(c) ==> {
                        &&& c.transfer_id@ == plan.transfer_id@
                        &&& c.client_id@ == client_text(old(self).client_of())
                        &&& c.operation == operation
                        &&& c.local_path == local_path
                        &&& c.remote_path == remote_path
                        &&& c.file_size == size
                        &&& c.transferred == 0
                        &&& c.chunk_size == old(self).settings_of().default_chunk_size
                        &&& c.use_checksum == old(self).settings_of().verify_checksum
                        &&& c.created_at_ms == now
                        &&& c.updated_at_ms == now
                    }
                },
            },
    {
        let n = self.next_id;
        self.next_id = self.next_id.wrapping_add(1);
        let transfer_id = with_decimal(String::from_str("transfer_"), n as u64);
        let size = match file_size {
            Ok(s) => s,
            Err(e) => {
                let m = String::from_str("Failed to stat file: ").concat(e.as_str());
                return Err(TransferError::InvalidPath(m));
            },
        };
        let state = TransferState::new_at(transfer_id.clone(), size, now);
        let checkpoint = if self.settings.enable_resume {
            let client = match self.client_id {
                Some(id) => with_signed_decimal(String::new(), id),
                None => String::from_str("unknown"),
            };
            proof {
                assert(client@ =~= client_text(self.client_id));
            }
            Some(
                TransferCheckpoint::new_at(
                    transfer_id.clone(),
                    client,
                    operation,
                    local_path,
                    remote_path,
                    size,
                    &self.settings,
                    now,
                ),
            )
        } else {
            None
        };
        Ok(StartPlan { transfer_id, state, checkpoint })
    }

    /// The error reported when the first checkpoint of a transfer could
    /// not be saved.
    pub fn checkpoint_save_failed(error: &TransferError) -> (r: TransferError)
        ensures
            r matches TransferError::Unknown(m) && m@ == "Failed to save checkpoint: "@ + error_text(*error),
    {
        let m = String::from_str("Failed to save checkpoint: ").concat(error.message().as_str());
        TransferError::Unknown(m)
    }

    /// Registers a started transfer: it joins the registry, replacing one
    /// with the same identifier, and counts as started and active.
    pub fn register_started(&mut self, state: TransferState, operation: TransferOperation) -> (r: TransferEvent)
        requires
            old(self).stats_of().total_transfers < usize::MAX,
            old(self).stats_of().active_transfers < usize::MAX,
        ensures
            final(self).checkpoint_store() == old(self).checkpoint_store(),
            final(self).registry() == registered(old(self).registry(), state@),
            final(self).stats_of() == (TransferStats {
                total_transfers: (old(self).stats_of().total_transfers + 1) as usize,
                active_transfers: (old(self).stats_of().active_transfers + 1) as usize,
                ..old(self).stats_of()
            }),
            final(self).next_number() == old(self).next_number(),
            final(self).settings_of() == old(self).settings_of(),
            final(self).pool_of() == old(self).pool_of(),
            r matches TransferEvent::Started { id, operation: op } && id@ == state@.id && op == operation,
    {
        let id = String::from_str(state.id());
        let ghost v = state@;
        let ghost pre = self.registry();
        match self.find_transfer(state.id()) {
            Some(i) => {
                self.transfers.set(i, state);
                proof {
                    assert(self.registry() =~= pre.update(i as int, v));
                }
            },
            None => {
                self.transfers.push(state);
                proof {
                    assert(self.registry() =~= pre.push(v));
                }
            },
        }
        self.stats.total_transfers = self.stats.total_transfers + 1;
        self.stats.active_transfers = self.stats.active_transfers + 1;
        TransferEvent::Started { id, operation }
    }

    /// The outcome of transfer `transfer_id` arrived at `now`.  A success
    /// completes the transfer, a failure marks it failed with the error's
    /// message; either way it leaves the registry and the statistics count
    /// it.  When the transfer is unknown, or its status does not allow the
    /// move, nothing changes and no event is reported.
    pub fn finish_transfer_at(&mut self, transfer_id: &str, result: Result<u64, TransferError>, now: u64) -> (r: Option<TransferEvent>)
        requires
            old(self).stats_of().completed_transfers < usize::MAX,
            old(self).stats_of().failed_transfers < usize::MAX,
            result matches Ok(b) ==> old(self).stats_of().total_bytes_transferred + b <= u64::MAX,
        ensures
            final(self).checkpoint_store() == old(self).checkpoint_store(),
            final(self).next_number() == old(self).next_number(),
            final(self).settings_of() == old(self).settings_of(),
            final(self).pool_of() == old(self).pool_of(),
            !has_transfer(old(self).registry(), transfer_id@) ==> r is None && final(self).registry()
                == old(self).registry() && final(self).stats_of() == old(self).stats_of(),
            has_transfer(old(self).registry(), transfer_id@) ==> ({
                let i = transfer_slot(old(self).registry(), transfer_id@);
                let t = old(self).registry()[i];
                let s = old(self).stats_of();
                match result {
                    Ok(bytes) => if t.status == TransferStatus::Transferring {
                        &&& r matches Some(TransferEvent::Completed { id, duration_secs, total_bytes }) && id@
                            == transfer_id@ && duration_secs == elapsed_between(t.created_at_ms, now) / 1000
                            && total_bytes == bytes
                        &&& final(self).registry() == old(self).registry().remove(i)
                        &&& final(self).stats_of() == (TransferStats {
                            active_transfers: if s.active_transfers > 0 { (s.active_transfers - 1) as usize } else { 0 },
                            completed_transfers: (s.completed_transfers + 1) as usize,
                            total_bytes_transferred: (s.total_bytes_transferred + bytes) as u64,
                            last_transfer_time_ms: Some(now),
                            ..s
                        })
                    } else {
                        r is None && final(self).registry() == old(self).registry() && final(self).stats_of() == s
                    },
                    Err(e) => if valid_transition(t.status, TransferStatus::Failed) {
                        &&& r matches Some(TransferEvent::Failed { id, error, transferred }) && id@
                            == transfer_id@ && error@ == error_text(e) && transferred == t.transferred
                        &&& final(self).registry() == old(self).registry().remove(i)
                        &&& final(self).stats_of() == (TransferStats {
                            active_transfers: if s.active_transfers > 0 { (s.active_transfers - 1) as usize } else { 0 },
                            failed_transfers: (s.failed_transfers + 1) as usize,
                            ..s
                        })
                    } else {
                        r is None && final(self).registry() == old(self).registry() && final(self).stats_of() == s
                    },
                }
            }),
    {
        let ghost pre = self.registry();
        let i = match self.find_transfer(transfer_id) {
            Some(i) => i,
            None => return None,
        };
        let mut st = self.transfers.remove(i);
        proof {
            assert(self.registry() =~= pre.remove(i as int));
        }
        let id = String::from_str(transfer_id);
        match result {
            Ok(bytes) => {
                if st.complete().is_err() {
                    self.transfers.insert(i, st);
                    proof {
                        assert(self.registry() =~= pre);
                    }
                    return None;
                }
                let duration_secs = st.elapsed_at(now) / 1000;
                self.stats.active_transfers = self.stats.active_transfers.saturating_sub(1);
                self.stats.completed_transfers = self.stats.completed_transfers + 1;
                self.stats.total_bytes_transferred = self.stats.total_bytes_transferred + bytes;
                self.stats.last_transfer_time_ms = Some(now);
                Some(TransferEvent::Completed { id, duration_secs, total_bytes: bytes })
            },
            Err(e) => {
                let transferred = st.transferred();
                let msg = e.message();
                if st.fail(e.message()).is_err() {
                    self.transfers.insert(i, st);
                    proof {
                        assert(self.registry() =~= pre);
                    }
                    return None;
                }
                self.stats.active_transfers = self.stats.active_transfers.saturating_sub(1);
                self.stats.failed_transfers = self.stats.failed_transfers + 1;
                Some(TransferEvent::Failed { id, error: msg, transferred })
            },
        }
    }

    /// Pauses transfer `transfer_id`; only a transferring transfer pauses.
    pub fn pause_transfer(&mut self, transfer_id: &str) -> (r: Result<TransferEvent, TransferError>)
        ensures
            final(self).checkpoint_store() == old(self).checkpoint_store(),
            final(self).stats_of() == old(self).stats_of(),
            final(self).next_number() == old(self).next_number(),
            final(self).settings_of() == old(self).settings_of(),
            final(self).pool_of() == old(self).pool_of(),
            !has_transfer(old(self).registry(), transfer_id@) ==> (r matches Err(TransferError::CannotResume(m))
                && m@ == not_found_text(transfer_id@) && final(self).registry() == old(self).registry()),
            has_transfer(old(self).registry(), transfer_id@) ==> ({
                let i = transfer_slot(old(self).registry(), transfer_id@);
                let t = old(self).registry()[i];
                if t.status == TransferStatus::Transferring {
                    &&& r matches Ok(TransferEvent::Paused { id, transferred }) && id@ == transfer_id@
                        && transferred == t.transferred
                    &&& final(self).registry() == old(self).registry().update(
                        i,
                        TransferStateView { status: TransferStatus::Paused, ..t },
                    )
                } else {
                    r is Err && final(self).registry() == old(self).registry()
                }
            }),
    {
        let ghost pre = self.registry();
        let i = match self.find_transfer(transfer_id) {
            Some(i) => i,
            None => {
                let m = String::from_str("Transfer not found: ").concat(transfer_id);
                return Err(TransferError::CannotResume(m));
            },
        };
        let mut st = self.transfers.remove(i);
        let outcome = st.pause();
        let transferred = st.transferred();
        let ghost v = st@;
        self.transfers.insert(i, st);
        proof {
            assert(self.registry() =~= pre.update(i as int, v));
        }
        match outcome {
            Ok(()) => Ok(TransferEvent::Paused { id: String::from_str(transfer_id), transferred }),
            Err(e) => {
                proof {
                    assert(self.registry() =~= pre);
                }
                Err(e)
            },
        }
    }

    /// Resumes transfer `transfer_id` at `now` from its checkpoint, given
    /// the outcome of loading that checkpoint and what is known of its
    /// local file.  A missing checkpoint, or one that no longer matches its
    /// file, refuses the resume.  The transfer is taken from the registry,
    /// or registered anew (pending, with the checkpoint's file size); then
    /// it must be paused or failed to resume.  A resumed transfer counts as
    /// active again.
    pub fn resume_transfer_at(
        &mut self,
        transfer_id: &str,
        loaded: Result<Option<TransferCheckpoint>, TransferError>,
        local_file: &LocalFileState,
        now: u64,
    ) -> (r: Result<ResumePlan, TransferError>)
        requires
            old(self).stats_of().active_transfers < usize::MAX,
        ensures
            final(self).checkpoint_store() == old(self).checkpoint_store(),
            final(self).next_number() == old(self).next_number(),
            final(self).settings_of() == old(self).settings_of(),
            final(self).pool_of() == old(self).pool_of(),
            loaded is Err ==> r is Err && r->Err_0 == loaded->Err_0 && final(self).registry() == old(self).registry()
                && final(self).stats_of() == old(self).stats_of(),
            loaded matches Ok(None) ==> (r matches Err(TransferError::CannotResume(m)) && m@
                == "No checkpoint found for transfer: "@ + transfer_id@ && final(self).registry()
                == old(self).registry() && final(self).stats_of() == old(self).stats_of()),
            loaded matches Ok(Some(c)) ==> match *local_file {
                LocalFileState::Missing => r matches Err(TransferError::CheckpointMismatch(m)) && m@
                    == "Checkpoint is no longer valid"@ && final(self).registry() == old(self).registry()
                    && final(self).stats_of() == old(self).stats_of(),
                LocalFileState::Unreadable(e) => r matches Err(TransferError::InvalidPath(m)) && m@
                    == "Failed to stat local file: "@ + e@ && final(self).registry() == old(self).registry()
                    && final(self).stats_of() == old(self).stats_of(),
                LocalFileState::Present(len) => if !(match c.operation {
                    TransferOperation::Upload => len >= c.file_size,
                    TransferOperation::Download => len >= c.transferred,
                }) {
                    r matches Err(TransferError::CheckpointMismatch(m)) && m@ == "Checkpoint is no longer valid"@
                        && final(self).registry() == old(self).registry() && final(self).stats_of()
                        == old(self).stats_of()
                } else {
                    let t = if has_transfer(old(self).registry(), transfer_id@) {
                        old(self).registry()[transfer_slot(old(self).registry(), transfer_id@)]
                    } else {
                        TransferStateView {
                            id: transfer_id@,
                            status: TransferStatus::Pending,
                            transferred: 0,
                            total: c.file_size,
                            created_at_ms: now,
                            last_progress_at_ms: now,
                            cancelled: false,
                            error: None,
                        }
                    };
                    let base = registered(old(self).registry(), t);
                    let slot = transfer_slot(base, transfer_id@);
                    if t.status == TransferStatus::Paused || t.status == TransferStatus::Failed {
                        &&& r matches Ok(plan) && plan.event matches TransferEvent::Resumed { id, from_offset }
                            && id@ == transfer_id@ && from_offset == c.transferred && plan.operation == c.operation
                            && plan.local_path == c.local_path && plan.remote_path == c.remote_path && plan.offset
                            == c.transferred && plan.file_size == t.total
                        &&& final(self).registry() == base.update(
                            slot,
                            TransferStateView {
                                status: if t.status == TransferStatus::Paused {
                                    TransferStatus::Transferring
                                } else {
                                    TransferStatus::Resuming
                                },
                                ..t
                            },
                        )
                        &&& final(self).stats_of() == (TransferStats {
                            active_transfers: (old(self).stats_of().active_transfers + 1) as usize,
                            ..old(self).stats_of()
                        })
                    } else {
                        r is Err && final(self).registry() == base && final(self).stats_of() == old(self).stats_of()
                    }
                },
            },
    {
        let checkpoint = match loaded {
            Err(e) => return Err(e),
            Ok(None) => {
                let m = String::from_str("No checkpoint found for transfer: ").concat(transfer_id);
                return Err(TransferError::CannotResume(m));
            },
            Ok(Some(c)) => c,
        };
        let valid = match checkpoint.is_valid(local_file) {
            Ok(v) => v,
            Err(e) => return Err(e),
        };
        if !valid {
            return Err(TransferError::CheckpointMismatch(String::from_str("Checkpoint is no longer valid")));
        }
        let ghost pre = self.registry();
        let i = match self.find_transfer(transfer_id) {
            Some(i) => i,
            None => {
                let st = TransferState::new_at(String::from_str(transfer_id), checkpoint.file_size, now);
                let ghost v = st@;
                self.transfers.push(st);
                proof {
                    assert(self.registry() =~= pre.push(v));
                    assert(is_first_transfer(self.registry(), transfer_id@, pre.len() as int));
                    lemma_first_transfer_unique(self.registry(), transfer_id@, pre.len() as int);
                }
                self.transfers.len() - 1
            },
        };
        let ghost base = self.registry();
        proof {
            if has_transfer(pre, transfer_id@) {
                assert(base == pre);
                assert(pre.update(i as int, pre[i as int]) =~= pre);
            }
            assert(is_first_transfer(base, transfer_id@, i as int));
        }
        let mut st = self.transfers.remove(i);
        let outcome = st.resume();
        let file_size = st.total();
        let ghost v = st@;
        self.transfers.insert(i, st);
        proof {
            assert(self.registry() =~= base.update(i as int, v));
        }
        match outcome {
            Err(e) => {
                proof {
                    assert(self.registry() =~= base);
                }
                Err(e)
            },
            Ok(()) => {
                self.stats.active_transfers = self.stats.active_transfers + 1;
                let event = TransferEvent::Resumed { id: String::from_str(transfer_id), from_offset: checkpoint.transferred };
                Ok(ResumePlan {
                    event,
                    operation: checkpoint.operation,
                    local_path: checkpoint.local_path,
                    remote_path: checkpoint.remote_path,
                    offset: checkpoint.transferred,
                    file_size,
                })
            },
        }
    }

    /// Cancels transfer `transfer_id`.  The transfer is marked cancelled in
    /// any case; a transfer already in a final status is refused, and only a
    /// cancelled one counts as cancelled.
    pub fn cancel_transfer(&mut self, transfer_id: &str) -> (r: Result<TransferEvent, TransferError>)
        requires
            old(self).stats_of().cancelled_transfers < usize::MAX,
        ensures
            final(self).checkpoint_store() == old(self).checkpoint_store(),
            final(self).next_number() == old(self).next_number(),
            final(self).settings_of() == old(self).settings_of(),
            final(self).pool_of() == old(self).pool_of(),
            !has_transfer(old(self).registry(), transfer_id@) ==> (r matches Err(TransferError::CannotResume(m))
                && m@ == not_found_text(transfer_id@) && final(self).registry() == old(self).registry()
                && final(self).stats_of() == old(self).stats_of()),
            has_transfer(old(self).registry(), transfer_id@) ==> ({
                let i = transfer_slot(old(self).registry(), transfer_id@);
                let t = old(self).registry()[i];
                let s = old(self).stats_of();
                &&& final(self).registry() == old(self).registry().update(
                    i,
                    TransferStateView {
                        cancelled: true,
                        status: if spec_is_terminal(t.status) { t.status } else { TransferStatus::Cancelled },
                        ..t
                    },
                )
                &&& spec_is_terminal(t.status) ==> r is Err && final(self).stats_of() == s
                &&& !spec_is_terminal(t.status) ==> {
                    &&& r matches Ok(TransferEvent::Cancelled { id, transferred }) && id@ == transfer_id@
                        && transferred == t.transferred
                    &&& final(self).stats_of() == (TransferStats {
                        active_transfers: if s.active_transfers > 0 { (s.active_transfers - 1) as usize } else { 0 },
                        cancelled_transfers: (s.cancelled_transfers + 1) as usize,
                        ..s
                    })
                }
            }),
    {
        let ghost pre = self.registry();
        let i = match self.find_transfer(transfer_id) {
            Some(i) => i,
            None => {
                let m = String::from_str("Transfer not found: ").concat(transfer_id);
                return Err(TransferError::CannotResume(m));
            },
        };
        let mut st = self.transfers.remove(i);
        let outcome = st.cancel();
        let transferred = st.transferred();
        let ghost v = st@;
        self.transfers.insert(i, st);
        proof {
            assert(self.registry() =~= pre.update(i as int, v));
        }
        match outcome {
            Err(e) => Err(e),
            Ok(()) => {
                self.stats.active_transfers = self.stats.active_transfers.saturating_sub(1);
                self.stats.cancelled_transfers = self.stats.cancelled_transfers + 1;
                Ok(TransferEvent::Cancelled { id: String::from_str(transfer_id), transferred })
            },
        }
    }

    /// The health of the transfers at `now`: how many are registered and
    /// how many stalled for longer than the no-progress timeout, the failures
    /// so far, the average speed since the last completion, and the share of
    /// pool connections in use, in thousandths.
    pub fn health_check_at(&self, now: u64) -> (r: TransferHealth)
        requires
            connection_total(self.pool_of().entries()) <= usize::MAX,
        ensures
            r.active_transfers == self.registry().len(),
            r.stuck_transfers == stuck_count(
                self.registry(),
                (self.settings_of().no_progress_timeout_secs * 1000) as u64,
                now,
            ),
            r.failed_transfers == self.stats_of().failed_transfers,
            r.avg_speed_bps == average_speed(self.stats_of(), now),
            r.pool_usage_permille == if connection_total(self.pool_of().entries()) > 0 {
                (connection_total(self.pool_of().entries()) - idle_total(self.pool_of().entries())) * 1000
                    / (connection_total(self.pool_of().entries()) as int)
            } else {
                0
            },
    {
        let stall_ms: u64 = self.settings.no_progress_timeout() * 1000;
        let mut stuck: usize = 0;
        let mut i: usize = 0;
        while i < self.transfers.len()
            invariant
                i <= self.transfers@.len(),
                stuck == stuck_count(self.registry().take(i as int), stall_ms, now),
                stuck <= i,
                stall_ms == self.settings.no_progress_timeout_secs * 1000,
                stall_ms <= u64::MAX / 3,
            decreases self.transfers@.len() - i,
        {
            proof {
                assert(self.registry().take(i + 1).drop_last() =~= self.registry().take(i as int));
            }
            if self.transfers[i].is_stuck_at(stall_ms, now) {
                stuck = stuck + 1;
            }
            i = i + 1;
        }
        proof {
            assert(self.registry().take(self.transfers@.len() as int) =~= self.registry());
        }
        let avg: u64 = match self.stats.last_transfer_time_ms {
            Some(t) => {
                let el = elapsed_ms(t, now);
                if el > 0 && self.stats.total_bytes_transferred > 0 {
                    let v: u128 = (self.stats.total_bytes_transferred as u128) * 1000 / (el as u128);
                    if v > u64::MAX as u128 {
                        u64::MAX
                    } else {
                        v as u64
                    }
                } else {
                    0
                }
            },
            None => 0,
        };
        let total = self.pool.total_connections();
        let idle = self.pool.total_idle_connections();
        proof {
            crate::transfer::pool::lemma_idle_le_total(self.pool.entries());
        }
        let usage: u64 = if total > 0 {
            let num: u128 = ((total - idle) as u128) * 1000;
            let q: u128 = num / (total as u128);
            assert(q <= 1000) by (nonlinear_arith)
                requires
                    num == (total - idle) * 1000,
                    idle <= total,
                    total > 0,
                    q == num / (total as u128),
            ;
            q as u64
        } else {
            0
        };
        TransferHealth {
            active_transfers: self.transfers.len(),
            stuck_transfers: stuck,
            failed_transfers: self.stats.failed_transfers,
            avg_speed_bps: avg,
            pool_usage_permille: usage,
        }
    }

    /// The status of transfer `transfer_id`, if it is registered.
    pub fn get_transfer_status(&self, transfer_id: &str) -> (r: Option<TransferStatus>)
        ensures
            !has_transfer(self.registry(), transfer_id@) ==> r is None,
            has_transfer(self.registry(), transfer_id@) ==> r == Some(
                self.registry()[transfer_slot(self.registry(), transfer_id@)].status,
            ),
    {
        match self.find_transfer(transfer_id) {
            Some(i) => Some(self.transfers[i].status()),
            None => None,
        }
    }

    /// Statistics of client `client_id`'s pool connections.
    pub fn get_pool_stats(&self, client_id: &str) -> (r: Option<PoolStats>)
        ensures
            !has_entry(self.pool_of().entries(), client_id@) ==> r is None,
            has_entry(self.pool_of().entries(), client_id@) ==> r == Some(
                PoolStats {
                    total_connections: self.pool_of().entries()[entry_slot(
                        self.pool_of().entries(),
                        client_id@,
                    )].connections.len() as usize,
                    idle_connections: idle_count(
                        self.pool_of().entries()[entry_slot(self.pool_of().entries(), client_id@)].connections,
                    ) as usize,
                    last_access_ms: self.pool_of().entries()[entry_slot(
                        self.pool_of().entries(),
                        client_id@,
                    )].last_access_ms,
                },
            ),
    {
        self.pool.stats(client_id)
    }

    /// The counters.
    pub fn stats(&self) -> (r: TransferStats)
        ensures
            r == self.stats_of(),
    {
        self.stats
    }

    /// Whether a checkpoint is due at `now` when the last one was saved at
    /// `last_ms`: once the checkpoint interval has passed.
    pub fn checkpoint_due(&self, last_ms: u64, now: u64) -> (r: bool)
        ensures
            r == (elapsed_between(last_ms, now) >= self.settings_of().checkpoint_interval_secs * 1000),
    {
        elapsed_ms(last_ms, now) >= self.settings.checkpoint_interval() * 1000
    }

    /// Drops idle pool connections at `now`.
    pub fn cleanup_at(&mut self, now: u64)
        requires
            old(self).pool_of().settings().transfer_connection_idle_timeout_secs * 2000 <= u64::MAX,
        ensures
            final(self).checkpoint_store() == old(self).checkpoint_store(),
            final(self).registry() == old(self).registry(),
            final(self).stats_of() == old(self).stats_of(),
            final(self).next_number() == old(self).next_number(),
            final(self).settings_of() == old(self).settings_of(),
            final(self).client_of() == old(self).client_of(),
            final(self).pool_of().settings() == old(self).pool_of().settings(),
            final(self).pool_of().entries() == entries_after_cleanup(
                old(self).pool_of().entries(),
                now,
                (old(self).pool_of().settings().transfer_connection_idle_timeout_secs * 1000) as u64,
            ),
    {
        self.pool.cleanup_idle_at(now);
    }
}

impl TransferManager {
    /// Applies a status step to transfer `transfer_id`.
    fn step_status(&mut self, transfer_id: &str, to_transferring: bool) -> (r: Result<(), TransferError>)
        ensures
            final(self).checkpoint_store() == old(self).checkpoint_store(),
            final(self).stats_of() == old(self).stats_of(),
            final(self).next_number() == old(self).next_number(),
            final(self).settings_of() == old(self).settings_of(),
            final(self).pool_of() == old(self).pool_of(),
            !has_transfer(old(self).registry(), transfer_id@) ==> (r matches Err(TransferError::CannotResume(m))
                && m@ == not_found_text(transfer_id@)) && final(self).registry() == old(self).registry(),
            has_transfer(old(self).registry(), transfer_id@) ==> ({
                let i = transfer_slot(old(self).registry(), transfer_id@);
                let t = old(self).registry()[i];
                let to = if to_transferring { TransferStatus::Transferring } else { TransferStatus::Connecting };
                let allowed = if to_transferring {
                    valid_transition(t.status, TransferStatus::Transferring)
                } else {
                    t.status == TransferStatus::Pending
                };
                &&& r is Ok <==> allowed
                &&& allowed ==> final(self).registry() == old(self).registry().update(
                    i,
                    TransferStateView { status: to, ..t },
                )
                &&& !allowed ==> final(self).registry() == old(self).registry()
            }),
    {
        let ghost pre = self.registry();
        let i = match self.find_transfer(transfer_id) {
            Some(i) => i,
            None => {
                let m = String::from_str("Transfer not found: ").concat(transfer_id);
                return Err(TransferError::CannotResume(m));
            },
        };
        let mut st = self.transfers.remove(i);
        let outcome = if to_transferring {
            st.begin_transfer()
        } else {
            st.start()
        };
        let ghost v = st@;
        self.transfers.insert(i, st);
        proof {
            assert(self.registry() =~= pre.update(i as int, v));
            if outcome is Err {
                assert(self.registry() =~= pre);
            }
        }
        outcome
    }

    /// Transfer `transfer_id` starts connecting; only a pending one can.
    pub fn mark_connecting(&mut self, transfer_id: &str) -> (r: Result<(), TransferError>)
        ensures
            final(self).checkpoint_store() == old(self).checkpoint_store(),
            final(self).stats_of() == old(self).stats_of(),
            !has_transfer(old(self).registry(), transfer_id@) ==> r is Err && final(self).registry()
                == old(self).registry(),
            has_transfer(old(self).registry(), transfer_id@) ==> ({
                let i = transfer_slot(old(self).registry(), transfer_id@);
                let t = old(self).registry()[i];
                &&& r is Ok <==> t.status == TransferStatus::Pending
                &&& r is Ok ==> final(self).registry() == old(self).registry().update(
                    i,
                    TransferStateView { status: TransferStatus::Connecting, ..t },
                )
                &&& r is Err ==> final(self).registry() == old(self).registry()
            }),
    {
        self.step_status(transfer_id, false)
    }

    /// Transfer `transfer_id` starts moving data.
    pub fn mark_transferring(&mut self, transfer_id: &str) -> (r: Result<(), TransferError>)
        ensures
            final(self).checkpoint_store() == old(self).checkpoint_store(),
            final(self).stats_of() == old(self).stats_of(),
            !has_transfer(old(self).registry(), transfer_id@) ==> r is Err && final(self).registry()
                == old(self).registry(),
            has_transfer(old(self).registry(), transfer_id@) ==> ({
                let i = transfer_slot(old(self).registry(), transfer_id@);
                let t = old(self).registry()[i];
                &&& r is Ok <==> valid_transition(t.status, TransferStatus::Transferring)
                &&& r is Ok ==> final(self).registry() == old(self).registry().update(
                    i,
                    TransferStateView { status: TransferStatus::Transferring, ..t },
                )
                &&& r is Err ==> final(self).registry() == old(self).registry()
            }),
    {
        self.step_status(transfer_id, true)
    }

    /// Transfer `transfer_id` reports `transferred` bytes at `now`; an
    /// unknown transfer is ignored.
    pub fn record_progress_at(&mut self, transfer_id: &str, transferred: u64, now: u64)
        ensures
            final(self).checkpoint_store() == old(self).checkpoint_store(),
            final(self).stats_of() == old(self).stats_of(),
            final(self).registry().len() == old(self).registry().len(),
            !has_transfer(old(self).registry(), transfer_id@) ==> final(self).registry() == old(self).registry(),
            has_transfer(old(self).registry(), transfer_id@) ==> ({
                let i = transfer_slot(old(self).registry(), transfer_id@);
                let t = old(self).registry()[i];
                final(self).registry() == if transferred > t.transferred {
                    old(self).registry().update(
                        i,
                        TransferStateView { transferred, last_progress_at_ms: now, ..t },
                    )
                } else {
                    old(self).registry()
                }
            }),
    {
        let ghost pre = self.registry();
        if let Some(i) = self.find_transfer(transfer_id) {
            let mut st = self.transfers.remove(i);
            let _ = st.update_transferred_at(transferred, now);
            let ghost v = st@;
            self.transfers.insert(i, st);
            proof {
                assert(self.registry() =~= pre.update(i as int, v));
                if transferred <= pre[i as int].transferred {
                    assert(self.registry() =~= pre);
                }
            }
        }
    }

    /// Whether the pool can hand out a connection without a count
    /// overflowing (see [`TransferPool::has_room`]).
    pub fn pool_has_room(&self) -> (r: bool)
        ensures
            r == (self.pool_of().entries().len() < usize::MAX && forall|k: int|
                0 <= k < self.pool_of().entries().len() ==> #[trigger] self.pool_of().entries()[k].next_index
                    < usize::MAX),
    {
        self.pool.has_room()
    }

    /// A pool connection for this manager's transfers, at `now`; a refusal
    /// of the pool is an unknown error with its text.
    pub fn acquire_connection_at(&mut self, now: u64) -> (r: Result<AcquireStep, TransferError>)
        requires
            old(self).pool_of().entries().len() < usize::MAX,
            forall|k: int| 0 <= k < old(self).pool_of().entries().len() ==> #[trigger] old(self).pool_of().entries()[k].next_index < usize::MAX,
        ensures
            final(self).checkpoint_store() == old(self).checkpoint_store(),
            final(self).registry() == old(self).registry(),
            final(self).stats_of() == old(self).stats_of(),
            final(self).next_number() == old(self).next_number(),
            final(self).settings_of() == old(self).settings_of(),
            final(self).client_of() == old(self).client_of(),
            final(self).pool_of().settings() == old(self).pool_of().settings(),
            r is Err ==> r->Err_0 is Unknown,
            acquire_outcome(
                old(self).pool_of().entries(),
                old(self).pool_of().settings().max_transfer_connections,
                "default"@,
                now,
                match r {
                    Ok(step) => Ok(step),
                    Err(e) => Err(
                        match e {
                            TransferError::Unknown(m) => m@,
                            _ => error_text(e),
                        },
                    ),
                },
                final(self).pool_of().entries(),
            ),
    {
        match self.pool.acquire_at("default", now) {
            Ok(step) => Ok(step),
            Err(m) => Err(TransferError::Unknown(m)),
        }
    }

    /// A connection opened at `now` after [`AcquireStep::Open`] joins the
    /// pool.
    pub fn connection_opened(&mut self, index: usize, now: u64)
        ensures
            final(self).checkpoint_store() == old(self).checkpoint_store(),
            final(self).registry() == old(self).registry(),
            final(self).stats_of() == old(self).stats_of(),
            final(self).next_number() == old(self).next_number(),
            final(self).settings_of() == old(self).settings_of(),
            final(self).client_of() == old(self).client_of(),
            final(self).pool_of().settings() == old(self).pool_of().settings(),
            final(self).pool_of().entries() == opened_entries(old(self).pool_of().entries(), "default"@, index, now),
    {
        self.pool.connection_opened("default", index, now);
    }

    /// A connection is handed back to the pool.
    pub fn release_connection(&mut self, conn_id: usize)
        ensures
            final(self).checkpoint_store() == old(self).checkpoint_store(),
            final(self).registry() == old(self).registry(),
            final(self).stats_of() == old(self).stats_of(),
            final(self).next_number() == old(self).next_number(),
            final(self).settings_of() == old(self).settings_of(),
            final(self).client_of() == old(self).client_of(),
            final(self).pool_of().settings() == old(self).pool_of().settings(),
            release_outcome(old(self).pool_of().entries(), final(self).pool_of().entries(), "default"@, conn_id),
    {
        self.pool.release("default", conn_id);
    }
}

proof fn lemma_first_transfer_unique(s: Seq<TransferStateView>, id: Seq<char>, i: int)
    requires
        is_first_transfer(s, id, i),
    ensures
        has_transfer(s, id),
        transfer_slot(s, id) == i,
{
    let j = choose|j: int| is_first_transfer(s, id, j);
    assert(is_first_transfer(s, id, j));
    if j < i {
        assert(s[j].id != id);
    }
    if i < j {
        assert(s[i].id != id);
    }
}

/// Transfers numbered differently get different identifiers.
pub proof fn law_transfer_ids_distinct(a: usize, b: usize)
    requires
        a != b,
    ensures
        transfer_id_text(a) != transfer_id_text(b),
{
    if transfer_id_text(a) == transfer_id_text(b) {
        reveal_strlit("transfer_");
        assert(decimal(a as nat) =~= transfer_id_text(a).skip(9));
        assert(decimal(b as nat) =~= transfer_id_text(b).skip(9));
        lemma_decimal_injective(a as nat, b as nat);
    }
}

} // verus!
