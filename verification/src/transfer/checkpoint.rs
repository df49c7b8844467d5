//! Checkpoints of transfers, for resuming them: what a checkpoint records,
//! when it still matches the local file, where it is stored, and which
//! stored checkpoints a listing or a clean-up selects.  Reading and writing
//! the files is left to the caller.
use vstd::prelude::*;

use crate::clock::now_ms;
use crate::text::{path_join, joined_path, str_eq};
use crate::transfer::types::{TransferError, TransferOperation, TransferSettings};

verus! {

/// A saved point of a transfer.  Times are milliseconds since the Unix
/// epoch.
#[derive(Debug)]
pub struct TransferCheckpoint {
    pub transfer_id: String,
    pub client_id: String,
    pub operation: TransferOperation,
    pub local_path: String,
    pub remote_path: String,
    pub file_size: u64,
    pub transferred: u64,
    pub chunk_size: usize,
    pub use_checksum: bool,
    pub local_checksum: Option<String>,
    pub remote_checksum: Option<String>,
    pub created_at_ms: u64,
    pub updated_at_ms: u64,
}

/// What is known of the local file of a checkpoint.
#[derive(Debug)]
pub enum LocalFileState {
    /// No file at the path.
    Missing,
    /// The file exists but its metadata could not be read; the text says why.
    Unreadable(String),
    /// The file exists with this length in bytes.
    Present(u64),
}

/// Name of the file holding the checkpoint of transfer `id`.
pub open spec fn checkpoint_file_name(id: Seq<char>) -> Seq<char> {
    "transfer_"@ + id + ".json"@
}

/// Progress in thousandths, at most 1000; 0 for an empty file.
pub open spec fn progress_permille_of(transferred: u64, file_size: u64) -> nat {
    if file_size == 0 {
        0
    } else if (transferred as nat) * 1000 / (file_size as nat) > 1000 {
        1000
    } else {
        (transferred as nat) * 1000 / (file_size as nat)
    }
}

/// Checkpoints of `s` that belong to client `client`, in order.
pub open spec fn for_client(s: Seq<TransferCheckpoint>, client: Seq<char>) -> Seq<TransferCheckpoint>
    decreases s.len(),
{
    if s.len() == 0 {
        s
    } else {
        let rest = for_client(s.drop_last(), client);
        if s.last().client_id@ == client {
            rest.push(s.last())
        } else {
            rest
        }
    }
}

/// `c` placed into `s` after every checkpoint updated at the same time or
/// later.
pub open spec fn insert_newest_first(s: Seq<TransferCheckpoint>, c: TransferCheckpoint) -> Seq<TransferCheckpoint>
    decreases s.len(),
{
    if s.len() == 0 {
        seq![c]
    } else if s[0].updated_at_ms >= c.updated_at_ms {
        seq![s[0]] + insert_newest_first(s.drop_first(), c)
    } else {
        seq![c] + s
    }
}

/// `s` sorted by update time, newest first, keeping the order of equal
/// times.
pub open spec fn newest_first(s: Seq<TransferCheckpoint>) -> Seq<TransferCheckpoint>
    decreases s.len(),
{
    if s.len() == 0 {
        s
    } else {
        insert_newest_first(newest_first(s.drop_last()), s.last())
    }
}

/// The cut-off of a clean-up: `max_age_days` days before `now_ms`.
pub open spec fn cutoff_ms(now_ms: u64, max_age_days: i64) -> int {
    now_ms - max_age_days * 86_400_000
}

/// Whether a clean-up at `now_ms` of checkpoints older than `max_age_days`
/// days can be recorded: the age fits a duration of milliseconds in an
/// `i64`, and the cut-off lies between the years -262143 and 262142, the
/// range of the dates in checkpoint files.
pub open spec fn cleanup_age_accepted(now_ms: u64, max_age_days: i64) -> bool {
    &&& -106_751_991_167 <= max_age_days <= 106_751_991_167
    &&& -8_334_601_315_200_000 <= cutoff_ms(now_ms, max_age_days) <= 8_210_266_876_799_999
}

impl TransferCheckpoint {
    /// A checkpoint at offset 0 created at `now`, with the chunk size and the
    /// checksum choice of the settings.
    pub fn new_at(
        transfer_id: String,
        client_id: String,
        operation: TransferOperation,
        local_path: String,
        remote_path: String,
        file_size: u64,
        settings: &TransferSettings,
        now: u64,
    ) -> (r: Self)
        ensures
            r.transfer_id == transfer_id,
            r.client_id == client_id,
            r.operation == operation,
            r.local_path == local_path,
            r.remote_path == remote_path,
            r.file_size == file_size,
            r.transferred == 0,
            r.chunk_size == settings.default_chunk_size,
            r.use_checksum == settings.verify_checksum,
            r.local_checksum is None,
            r.remote_checksum is None,
            r.created_at_ms == now,
            r.updated_at_ms == now,
    {
        TransferCheckpoint {
            transfer_id,
            client_id,
            operation,
            local_path,
            remote_path,
            file_size,
            transferred: 0,
            chunk_size: settings.default_chunk_size,
            use_checksum: settings.verify_checksum,
            local_checksum: None,
            remote_checksum: None,
            created_at_ms: now,
            updated_at_ms: now,
        }
    }

    /// A checkpoint at offset 0 created now.
    pub fn new(
        transfer_id: String,
        client_id: String,
        operation: TransferOperation,
        local_path: String,
        remote_path: String,
        file_size: u64,
        settings: &TransferSettings,
    ) -> (r: Self)
        ensures
            r.transfer_id == transfer_id,
            r.client_id == client_id,
            r.operation == operation,
            r.local_path == local_path,
            r.remote_path == remote_path,
            r.file_size == file_size,
            r.transferred == 0,
            r.chunk_size == settings.default_chunk_size,
            r.use_checksum == settings.verify_checksum,
            r.local_checksum is None,
            r.remote_checksum is None,
            r.created_at_ms == r.updated_at_ms,
    {
        let now = now_ms();
        Self::new_at(transfer_id, client_id, operation, local_path, remote_path, file_size, settings, now)
    }

    /// Records that `bytes` were transferred, at `now`.
    pub fn update_transferred_at(&mut self, bytes: u64, now: u64)
        ensures
            *final(self) == (TransferCheckpoint { transferred: bytes, updated_at_ms: now, ..*old(self) }),
    {
        self.transferred = bytes;
        self.updated_at_ms = now;
    }

    /// Records that `bytes` were transferred, now.
    pub fn update_transferred(&mut self, bytes: u64)
        ensures
            *final(self) == (TransferCheckpoint {
                transferred: bytes,
                updated_at_ms: final(self).updated_at_ms,
                ..*old(self)
            }),
    {
        let now = now_ms();
        self.update_transferred_at(bytes, now);
    }

    /// The path of the checkpoint file of `transfer_id` in `checkpoint_dir`.
    pub fn checkpoint_path(checkpoint_dir: &str, transfer_id: &str) -> (r: String)
        ensures
            r@ == joined_path(checkpoint_dir@, checkpoint_file_name(transfer_id@)),
    {
        let name = String::from_str("transfer_").concat(transfer_id).concat(".json");
        path_join(checkpoint_dir, name.as_str())
    }

    /// Whether the checkpoint still matches its local file: the file must
    /// exist and, for an upload, hold at least the whole file size; for a
    /// download, at least the bytes already transferred.  Unreadable
    /// metadata is an invalid path.
    pub fn is_valid(&self, local_file: &LocalFileState) -> (r: Result<bool, TransferError>)
        ensures
            match *local_file {
                LocalFileState::Missing => r == Ok::<bool, TransferError>(false),
                LocalFileState::Unreadable(e) => r matches Err(TransferError::InvalidPath(m)) && m@
                    == "Failed to stat local file: "@ + e@,
                LocalFileState::Present(len) => r == Ok::<bool, TransferError>(
                    match self.operation {
                        TransferOperation::Upload => len >= self.file_size,
                        TransferOperation::Download => len >= self.transferred,
                    },
                ),
            },
    {
        match local_file {
            LocalFileState::Missing => Ok(false),
            LocalFileState::Unreadable(e) => {
                let m = String::from_str("Failed to stat local file: ").concat(e.as_str());
                Err(TransferError::InvalidPath(m))
            },
            LocalFileState::Present(len) => match self.operation {
                TransferOperation::Upload => Ok(*len >= self.file_size),
                TransferOperation::Download => Ok(*len >= self.transferred),
            },
        }
    }

    /// Progress in thousandths of the file, at most 1000; 0 for an empty
    /// file.
    pub fn progress_permille(&self) -> (r: u64)
        ensures
            r == progress_permille_of(self.transferred, self.file_size),
    {
        if self.file_size == 0 {
            0
        } else {
            let p: u128 = (self.transferred as u128) * 1000 / (self.file_size as u128);
            if p > 1000 {
                1000
            } else {
                p as u64
            }
        }
    }

    /// Whether the checkpoint was last updated before `cutoff`.
    pub fn is_older_than(&self, cutoff: i128) -> (r: bool)
        ensures
            r == (self.updated_at_ms < cutoff),
    {
        (self.updated_at_ms as i128) < cutoff
    }
}

impl Clone for TransferCheckpoint {
    fn clone(&self) -> (r: Self)
        ensures
            r == *self,
    {
        TransferCheckpoint {
            transfer_id: self.transfer_id.clone(),
            client_id: self.client_id.clone(),
            operation: self.operation,
            local_path: self.local_path.clone(),
            remote_path: self.remote_path.clone(),
            file_size: self.file_size,
            transferred: self.transferred,
            chunk_size: self.chunk_size,
            use_checksum: self.use_checksum,
            local_checksum: match &self.local_checksum {
                Some(s) => Some(s.clone()),
                None => None,
            },
            remote_checksum: match &self.remote_checksum {
                Some(s) => Some(s.clone()),
                None => None,
            },
            created_at_ms: self.created_at_ms,
            updated_at_ms: self.updated_at_ms,
        }
    }
}

/// Where the checkpoints are stored.
pub struct CheckpointManager {
    checkpoint_dir: String,
}

impl CheckpointManager {
    /// A manager over `checkpoint_dir`, given the outcome of creating that
    /// directory (with its parents): a failure there is an invalid path.
    pub fn new(checkpoint_dir: String, created: Result<(), String>) -> (r: Result<Self, TransferError>)
        ensures
            match created {
                Ok(()) => r matches Ok(m) && m.dir()@ == checkpoint_dir@,
                Err(e) => r matches Err(TransferError::InvalidPath(m)) && m@
                    == "Failed to create checkpoint directory: "@ + e@,
            },
    {
        match created {
            Ok(()) => Ok(CheckpointManager { checkpoint_dir }),
            Err(e) => {
                let m = String::from_str("Failed to create checkpoint directory: ").concat(e.as_str());
                Err(TransferError::InvalidPath(m))
            },
        }
    }

    /// The directory of checkpoints under an application data directory.
    pub fn checkpoint_dir_for(app_data_dir: &str) -> (r: String)
        ensures
            r@ == joined_path(app_data_dir@, "transfer_checkpoints"@),
    {
        path_join(app_data_dir, "transfer_checkpoints")
    }

    /// A manager over the checkpoint directory of `app_data_dir`, given the
    /// outcome of creating it.
    pub fn from_app_data_dir(app_data_dir: &str, created: Result<(), String>) -> (r: Result<Self, TransferError>)
        ensures
            match created {
                Ok(()) => r matches Ok(m) && m.dir()@ == joined_path(app_data_dir@, "transfer_checkpoints"@),
                Err(e) => r matches Err(TransferError::InvalidPath(m)) && m@
                    == "Failed to create checkpoint directory: "@ + e@,
            },
    {
        let dir = Self::checkpoint_dir_for(app_data_dir);
        Self::new(dir, created)
    }

    /// The checkpoint directory.
    pub closed spec fn dir(&self) -> String {
        self.checkpoint_dir
    }

    /// The checkpoint directory.
    pub fn checkpoint_dir(&self) -> (r: &str)
        ensures
            r@ == self.dir()@,
    {
        self.checkpoint_dir.as_str()
    }

    /// The file of the checkpoint of `transfer_id`.
    pub fn path_for(&self, transfer_id: &str) -> (r: String)
        ensures
            r@ == joined_path(self.dir()@, checkpoint_file_name(transfer_id@)),
    {
        TransferCheckpoint::checkpoint_path(self.checkpoint_dir.as_str(), transfer_id)
    }

    /// Of the checkpoints read from the directory, those of `client_id`,
    /// newest first.
    pub fn list_checkpoints(&self, checkpoints: Vec<TransferCheckpoint>, client_id: &str) -> (r: Vec<TransferCheckpoint>)
        ensures
            r@ == newest_first(for_client(checkpoints@, client_id@)),
    {
        select_newest_first(checkpoints, client_id)
    }

    /// The cut-off time of a clean-up at `now` of checkpoints older than
    /// `max_age_days` days.
    pub fn cleanup_cutoff(now: u64, max_age_days: i64) -> (r: i128)
        requires
            cleanup_age_accepted(now, max_age_days),
        ensures
            r == cutoff_ms(now, max_age_days),
    {
        (now as i128) - (max_age_days as i128) * 86_400_000
    }

    /// The cut-off time of a clean-up at `now` of checkpoints older than
    /// `max_age_days` days, or nothing when the age or the cut-off lies
    /// beyond what the checkpoint files can record.
    pub fn checked_cleanup_cutoff(now: u64, max_age_days: i64) -> (r: Option<i128>)
        ensures
            r == (if cleanup_age_accepted(now, max_age_days) {
                Some(cutoff_ms(now, max_age_days) as i128)
            } else {
                None
            }),
    {
        if max_age_days < -106_751_991_167 || max_age_days > 106_751_991_167 {
            return None;
        }
        let c = (now as i128) - (max_age_days as i128) * 86_400_000;
        if c < -8_334_601_315_200_000 || c > 8_210_266_876_799_999 {
            return None;
        }
        Some(Self::cleanup_cutoff(now, max_age_days))
    }

    /// Whether a checkpoint still matches its local file.
    pub fn verify_checkpoint(&self, checkpoint: &TransferCheckpoint, local_file: &LocalFileState) -> (r: Result<bool, TransferError>)
        ensures
            match *local_file {
                LocalFileState::Missing => r == Ok::<bool, TransferError>(false),
                LocalFileState::Unreadable(e) => r matches Err(TransferError::InvalidPath(m)) && m@
                    == "Failed to stat local file: "@ + e@,
                LocalFileState::Present(len) => r == Ok::<bool, TransferError>(
                    match checkpoint.operation {
                        TransferOperation::Upload => len >= checkpoint.file_size,
                        TransferOperation::Download => len >= checkpoint.transferred,
                    },
                ),
            },
    {
        checkpoint.is_valid(local_file)
    }
}

/// Places `c` into `v`, which is sorted newest first, after every checkpoint
/// updated at the same time or later.
fn insert_sorted(v: &mut Vec<TransferCheckpoint>, c: TransferCheckpoint)
    ensures
        final(v)@ == insert_newest_first(old(v)@, c),
{
    let mut i: usize = 0;
    while i < v.len() && v[i].updated_at_ms >= c.updated_at_ms
        invariant
            i <= v@.len(),
            v@ == old(v)@,
            forall|k: int| 0 <= k < i ==> v@[k].updated_at_ms >= c.updated_at_ms,
        decreases v@.len() - i,
    {
        i = i + 1;
    }
    proof {
        lemma_insert_at_first_newer(v@, c, i as int);
    }
    v.insert(i, c);
}

proof fn lemma_insert_at_first_newer(s: Seq<TransferCheckpoint>, c: TransferCheckpoint, i: int)
    requires
        0 <= i <= s.len(),
        forall|k: int| 0 <= k < i ==> s[k].updated_at_ms >= c.updated_at_ms,
        i < s.len() ==> s[i].updated_at_ms < c.updated_at_ms,
    ensures
        s.insert(i, c) == insert_newest_first(s, c),
    decreases s.len(),
{
    if s.len() == 0 {
        assert(s.insert(i, c) =~= seq![c]);
    } else if i == 0 {
        assert(s.insert(0, c) =~= seq![c] + s);
    } else {
        lemma_insert_at_first_newer(s.drop_first(), c, i - 1);
        assert(s.insert(i, c) =~= seq![s[0]] + s.drop_first().insert(i - 1, c));
    }
}

/// The checkpoints of `client_id` among `checkpoints`, newest first.
fn select_newest_first(checkpoints: Vec<TransferCheckpoint>, client_id: &str) -> (r: Vec<TransferCheckpoint>)
    ensures
        r@ == newest_first(for_client(checkpoints@, client_id@)),
{
    let ghost all = checkpoints@;
    assert(all.len() == checkpoints.len());
    let mut rest = checkpoints;
    let mut out: Vec<TransferCheckpoint> = Vec::new();
    let mut taken: usize = 0;
    while rest.len() > 0
        invariant
            taken + rest@.len() == all.len(),
            all.len() <= usize::MAX,
            rest@ == all.subrange(taken as int, all.len() as int),
            out@ == newest_first(for_client(all.take(taken as int), client_id@)),
        decreases rest@.len(),
    {
        let c = rest.remove(0);
        proof {
            assert(all.take(taken + 1).drop_last() =~= all.take(taken as int));
            assert(all.take(taken + 1).last() == c);
        }
        let ghost before = for_client(all.take(taken as int), client_id@);
        if str_eq(c.client_id.as_str(), client_id) {
            proof {
                assert(for_client(all.take(taken + 1), client_id@) == before.push(c));
                assert(before.push(c).drop_last() =~= before);
            }
            insert_sorted(&mut out, c);
        }
        taken = taken + 1;
    }
    proof {
        assert(all.take(all.len() as int) =~= all);
    }
    out
}

/// The listing of a client's checkpoints is sorted newest first.
pub proof fn law_listing_newest_first(s: Seq<TransferCheckpoint>)
    ensures
        forall|i: int, j: int|
            0 <= i < j < newest_first(s).len() ==> #[trigger] newest_first(s)[i].updated_at_ms
                >= #[trigger] newest_first(s)[j].updated_at_ms,
        newest_first(s).len() == s.len(),
    decreases s.len(),
{
    if s.len() > 0 {
        law_listing_newest_first(s.drop_last());
        lemma_insert_keeps_order(newest_first(s.drop_last()), s.last());
    }
}

proof fn lemma_insert_keeps_order(s: Seq<TransferCheckpoint>, c: TransferCheckpoint)
    requires
        forall|i: int, j: int| 0 <= i < j < s.len() ==> #[trigger] s[i].updated_at_ms >= #[trigger] s[j].updated_at_ms,
    ensures
        forall|i: int, j: int|
            0 <= i < j < insert_newest_first(s, c).len() ==> #[trigger] insert_newest_first(s, c)[i].updated_at_ms
                >= #[trigger] insert_newest_first(s, c)[j].updated_at_ms,
        insert_newest_first(s, c).len() == s.len() + 1,
    decreases s.len(),
{
    if s.len() > 0 && s[0].updated_at_ms >= c.updated_at_ms {
        let t = s.drop_first();
        lemma_insert_keeps_order(t, c);
        lemma_insert_members(t, c);
        let r = insert_newest_first(s, c);
        assert(r == seq![s[0]] + insert_newest_first(t, c));
        assert forall|i: int, j: int| 0 <= i < j < r.len() implies #[trigger] r[i].updated_at_ms >= #[trigger] r[j].updated_at_ms by {
            if i > 0 {
                assert(r[i] == insert_newest_first(t, c)[i - 1]);
                assert(r[j] == insert_newest_first(t, c)[j - 1]);
            } else {
                assert(r[j] == insert_newest_first(t, c)[j - 1]);
                let x = insert_newest_first(t, c)[j - 1];
                assert(x == c || exists|k: int| 0 <= k < t.len() && x == t[k]);
                if x != c {
                    let k = choose|k: int| 0 <= k < t.len() && x == t[k];
                    assert(s[0].updated_at_ms >= s[k + 1].updated_at_ms);
                }
            }
        }
    } else if s.len() > 0 {
        let r = insert_newest_first(s, c);
        assert(r == seq![c] + s);
        assert forall|i: int, j: int| 0 <= i < j < r.len() implies #[trigger] r[i].updated_at_ms >= #[trigger] r[j].updated_at_ms by {
            if i > 0 {
                assert(r[i] == s[i - 1]);
                assert(r[j] == s[j - 1]);
            } else {
                assert(r[j] == s[j - 1]);
                if j - 1 > 0 {
                    assert(s[0].updated_at_ms >= s[j - 1].updated_at_ms);
                }
            }
        }
    }
}

proof fn lemma_insert_members(s: Seq<TransferCheckpoint>, c: TransferCheckpoint)
    ensures
        forall|j: int| 0 <= j < insert_newest_first(s, c).len() ==> {
            let x = #[trigger] insert_newest_first(s, c)[j];
            x == c || exists|k: int| 0 <= k < s.len() && x == s[k]
        },
        insert_newest_first(s, c).len() == s.len() + 1,
    decreases s.len(),
{
    if s.len() > 0 && s[0].updated_at_ms >= c.updated_at_ms {
        let t = s.drop_first();
        lemma_insert_members(t, c);
        let r = insert_newest_first(s, c);
        assert forall|j: int| 0 <= j < r.len() implies {
            let x = #[trigger] r[j];
            x == c || exists|k: int| 0 <= k < s.len() && x == s[k]
        } by {
            if j == 0 {
                assert(r[0] == s[0]);
            } else {
                let x = r[j];
                assert(x == insert_newest_first(t, c)[j - 1]);
                if x != c {
                    let k = choose|k: int| 0 <= k < t.len() && x == t[k];
                    assert(x == s[k + 1]);
                }
            }
        }
    } else if s.len() > 0 {
        let r = insert_newest_first(s, c);
        assert forall|j: int| 0 <= j < r.len() implies {
            let x = #[trigger] r[j];
            x == c || exists|k: int| 0 <= k < s.len() && x == s[k]
        } by {
            if j > 0 {
                assert(r[j] == s[j - 1]);
            }
        }
    }
}

} // verus!
