//! File operations of a session: paths on a WSL distribution, listings and
//! their order, the search command and its output, and the records of
//! background transfers with their statuses.
use vstd::prelude::*;

use crate::text::{decimal, push_char, str_eq, str_trim, trim_of};

verus! {

/// One entry of a directory listing.
#[derive(Debug)]
pub struct FileEntry {
    pub name: String,
    pub is_dir: bool,
    pub size: u64,
    pub mtime: i64,
    pub permissions: u32,
    pub uid: u32,
    pub owner: String,
}

impl Clone for FileEntry {
    fn clone(&self) -> (r: Self)
        ensures
            r == *self,
    {
        FileEntry {
            name: self.name.clone(),
            is_dir: self.is_dir,
            size: self.size,
            mtime: self.mtime,
            permissions: self.permissions,
            uid: self.uid,
            owner: self.owner.clone(),
        }
    }
}

/// `path` with every `/` turned into `\`.
pub open spec fn backslashed(path: Seq<char>) -> Seq<char> {
    path.map_values(|c: char| if c == '/' { '\\' } else { c })
}

/// `s` without its leading backslashes.
pub open spec fn without_leading_backslashes(s: Seq<char>) -> Seq<char>
    decreases s.len(),
{
    if s.len() > 0 && s[0] == '\\' {
        without_leading_backslashes(s.drop_first())
    } else {
        s
    }
}

/// The Windows path of `path` inside the WSL distribution `distro`.
pub open spec fn wsl_path_text(distro: Seq<char>, path: Seq<char>) -> Seq<char> {
    "\\\\wsl$\\"@ + distro + "\\"@ + without_leading_backslashes(backslashed(path))
}

/// The Windows path of `path` inside the WSL distribution `distro`: its
/// slashes become backslashes, leading ones are dropped, and it is put
/// under the distribution's share.
pub fn to_wsl_path(distro: &str, path: &str) -> (r: String)
    ensures
        r@ == wsl_path_text(distro@, path@),
{
    let mut out = String::from_str("\\\\wsl$\\").concat(distro).concat("\\");
    let ghost head = out@;
    let mut leading = true;
    let mut i: usize = 0;
    let ghost mut skipped: int = 0;
    for c in it: path.chars()
        invariant
            it.seq() == path@,
            0 <= skipped <= it.index(),
            leading ==> skipped == it.index(),
            forall|k: int| 0 <= k < skipped ==> backslashed(path@)[k] == '\\',
            !leading ==> (skipped < it.index() && backslashed(path@)[skipped] != '\\'),
            out@ == head + backslashed(path@).subrange(skipped, it.index() as int),
    {
        let d = if c == '/' { '\\' } else { c };
        if leading && d == '\\' {
            proof {
                skipped = skipped + 1;
            }
        } else {
            leading = false;
            push_char(&mut out, d);
        }
        proof {
            assert(backslashed(path@)[it.index() as int] == d);
        }
    }
    proof {
        lemma_strip_leading(backslashed(path@), skipped);
        assert(head == "\\\\wsl$\\"@ + distro@ + "\\"@);
    }
    out
}

proof fn lemma_strip_leading(s: Seq<char>, k: int)
    requires
        0 <= k <= s.len(),
        forall|j: int| 0 <= j < k ==> s[j] == '\\',
        k < s.len() ==> s[k] != '\\',
    ensures
        without_leading_backslashes(s) == s.subrange(k, s.len() as int),
    decreases s.len(),
{
    if k == 0 {
        assert(s.subrange(0, s.len() as int) =~= s);
    } else {
        lemma_strip_leading(s.drop_first(), k - 1);
        assert(s.drop_first().subrange(k - 1, s.len() - 1) =~= s.subrange(k, s.len() as int));
    }
}

/// `a` comes before `b` in code point order.
pub open spec fn name_less(a: Seq<char>, b: Seq<char>) -> bool
    decreases a.len(),
{
    if a.len() == 0 {
        b.len() > 0
    } else if b.len() == 0 {
        false
    } else if a[0] != b[0] {
        (a[0] as u32) < (b[0] as u32)
    } else {
        name_less(a.drop_first(), b.drop_first())
    }
}

/// Whether `a` comes before `b` in code point order.
pub fn names_less(a: &str, b: &str) -> (r: bool)
    ensures
        r == name_less(a@, b@),
{
    let x = crate::text::chars_of(a);
    let y = crate::text::chars_of(b);
    let mut i: usize = 0;
    proof {
        assert(a@.skip(0) =~= a@);
        assert(b@.skip(0) =~= b@);
    }
    while i < x.len() && i < y.len() && x[i] == y[i]
        invariant
            x@ == a@,
            y@ == b@,
            i <= x@.len(),
            i <= y@.len(),
            name_less(a@, b@) == name_less(a@.skip(i as int), b@.skip(i as int)),
        decreases x@.len() - i,
    {
        proof {
            assert(a@.skip(i as int).drop_first() =~= a@.skip(i + 1));
            assert(b@.skip(i as int).drop_first() =~= b@.skip(i + 1));
        }
        i = i + 1;
    }
    if i == x.len() {
        i < y.len()
    } else if i == y.len() {
        false
    } else {
        (x[i] as u32) < (y[i] as u32)
    }
}

/// `a` is listed before `b`: directories first, then by name.
pub open spec fn listed_before(a: FileEntry, b: FileEntry) -> bool {
    if a.is_dir != b.is_dir {
        a.is_dir
    } else {
        name_less(a.name@, b.name@)
    }
}

/// `e` placed into the listing `s` after every entry it does not come
/// before.
pub open spec fn insert_listed(s: Seq<FileEntry>, e: FileEntry) -> Seq<FileEntry>
    decreases s.len(),
{
    if s.len() == 0 {
        seq![e]
    } else if !listed_before(e, s[0]) {
        seq![s[0]] + insert_listed(s.drop_first(), e)
    } else {
        seq![e] + s
    }
}

/// `s` in listing order, keeping the order of entries that tie.
pub open spec fn listing_order(s: Seq<FileEntry>) -> Seq<FileEntry>
    decreases s.len(),
{
    if s.len() == 0 {
        s
    } else {
        insert_listed(listing_order(s.drop_last()), s.last())
    }
}

fn entry_before(a: &FileEntry, b: &FileEntry) -> (r: bool)
    ensures
        r == listed_before(*a, *b),
{
    if a.is_dir != b.is_dir {
        a.is_dir
    } else {
        names_less(a.name.as_str(), b.name.as_str())
    }
}

proof fn lemma_insert_listed_at(s: Seq<FileEntry>, e: FileEntry, i: int)
    requires
        0 <= i <= s.len(),
        forall|k: int| 0 <= k < i ==> !listed_before(e, s[k]),
        i < s.len() ==> listed_before(e, s[i]),
    ensures
        s.insert(i, e) == insert_listed(s, e),
    decreases s.len(),
{
    if s.len() == 0 {
        assert(s.insert(i, e) =~= seq![e]);
    } else if i == 0 {
        assert(s.insert(0, e) =~= seq![e] + s);
    } else {
        lemma_insert_listed_at(s.drop_first(), e, i - 1);
        assert(s.insert(i, e) =~= seq![s[0]] + s.drop_first().insert(i - 1, e));
    }
}

/// Sorts a listing: directories first, then by name in code point order;
/// entries that tie keep their order.
pub fn sort_file_entries(entries: Vec<FileEntry>) -> (r: Vec<FileEntry>)
    ensures
        r@ == listing_order(entries@),
{
    let ghost all = entries@;
    assert(all.len() == entries.len());
    let mut rest = entries;
    let mut out: Vec<FileEntry> = Vec::new();
    let mut taken: usize = 0;
    while rest.len() > 0
        invariant
            taken + rest@.len() == all.len(),
            all.len() <= usize::MAX,
            rest@ == all.subrange(taken as int, all.len() as int),
            out@ == listing_order(all.take(taken as int)),
        decreases rest@.len(),
    {
        let e = rest.remove(0);
        proof {
            assert(all.take(taken + 1).drop_last() =~= all.take(taken as int));
            assert(all.take(taken + 1).last() == e);
        }
        let mut i: usize = 0;
        while i < out.len() && !entry_before(&e, &out[i])
            invariant
                i <= out@.len(),
                forall|k: int| 0 <= k < i ==> !listed_before(e, out@[k]),
            decreases out@.len() - i,
        {
            i = i + 1;
        }
        proof {
            lemma_insert_listed_at(out@, e, i as int);
        }
        out.insert(i, e);
        taken = taken + 1;
    }
    proof {
        assert(all.take(all.len() as int) =~= all);
    }
    out
}

/// The listing entry of a remote directory entry: none for `.` and `..`;
/// the owner is `root` for user 0 and `-` for others.
pub fn entry_from_stat(name: &str, is_dir: bool, size: u64, mtime: u64, permissions: u32, uid: u32) -> (r: Option<FileEntry>)
    ensures
        (name@ == "."@ || name@ == ".."@) ==> r is None,
        !(name@ == "."@ || name@ == ".."@) ==> (r matches Some(e) && e.name@ == name@ && e.is_dir == is_dir
            && e.size == size && e.mtime == mtime as i64 && e.permissions == permissions && e.uid == uid
            && e.owner@ == (if uid == 0 { "root"@ } else { "-"@ })),
{
    if str_eq(name, ".") || str_eq(name, "..") {
        return None;
    }
    let owner = if uid == 0 { String::from_str("root") } else { String::from_str("-") };
    Some(FileEntry {
        name: String::from_str(name),
        is_dir,
        size,
        mtime: mtime as i64,
        permissions,
        uid,
        owner,
    })
}

/// `s` with each single quote written as `'\''`, for use inside single
/// quotes in a shell command.
pub open spec fn shell_quoted(s: Seq<char>) -> Seq<char>
    decreases s.len(),
{
    if s.len() == 0 {
        s
    } else {
        shell_quoted(s.drop_last()) + if s.last() == '\'' {
            seq!['\'', '\\', '\'', '\'']
        } else {
            seq![s.last()]
        }
    }
}

fn escape_quotes(s: &str) -> (r: String)
    ensures
        r@ == shell_quoted(s@),
{
    let mut out = String::new();
    for c in it: s.chars()
        invariant
            it.seq() == s@,
            out@ == shell_quoted(s@.take(it.index() as int)),
    {
        proof {
            assert(s@.take(it.index() + 1).drop_last() =~= s@.take(it.index() as int));
        }
        let ghost before = out@;
        if c == '\'' {
            push_char(&mut out, '\'');
            push_char(&mut out, '\\');
            push_char(&mut out, '\'');
            push_char(&mut out, '\'');
        } else {
            push_char(&mut out, c);
        }
        proof {
            assert(out@ =~= shell_quoted(s@.take(it.index() + 1)));
        }
    }
    proof {
        assert(s@.take(s@.len() as int) =~= s@);
    }
    out
}

/// The remote command finding files under `path` whose name contains
/// `query`.
pub open spec fn search_command_text(path: Seq<char>, query: Seq<char>) -> Seq<char> {
    "find '"@ + shell_quoted(path) + "' -name '*"@ + shell_quoted(query) + "*'"@
}

/// The remote command finding files under `path` whose name contains
/// `query`; quotes in both are escaped.
pub fn search_command(path: &str, query: &str) -> (r: String)
    ensures
        r@ == search_command_text(path@, query@),
{
    let p = escape_quotes(path);
    let q = escape_quotes(query);
    let r = String::from_str("find '").concat(p.as_str()).concat("' -name '*").concat(q.as_str()).concat("*'");
    proof {
        assert(r@ =~= search_command_text(path@, query@));
    }
    r
}

/// The name pattern given to `find` on a WSL distribution.
pub fn wsl_search_pattern(query: &str) -> (r: String)
    ensures
        r@ == "*"@ + query@ + "*"@,
{
    let r = String::from_str("*").concat(query).concat("*");
    proof {
        assert(r@ =~= "*"@ + query@ + "*"@);
    }
    r
}

/// The pieces of `s` between line feeds, line feeds left out; there is
/// always one more piece than line feeds.
pub open spec fn line_pieces(s: Seq<char>) -> Seq<Seq<char>>
    decreases s.len(),
{
    if s.len() == 0 {
        seq![Seq::empty()]
    } else {
        let rest = line_pieces(s.skip(1));
        if s[0] == '\n' {
            seq![Seq::empty()] + rest
        } else {
            rest.update(0, seq![s[0]] + rest[0])
        }
    }
}

/// The lines of `s`: split at each line feed, a carriage return just before
/// a line feed dropped with it, and no empty last line after a final line
/// ending (so the empty text has no line).
pub open spec fn lines_of(s: Seq<char>) -> Seq<Seq<char>> {
    let p = line_pieces(s);
    let q = Seq::new(
        p.len(),
        |i: int|
            if i < p.len() - 1 && p[i].len() > 0 && p[i].last() == '\r' {
                p[i].drop_last()
            } else {
                p[i]
            },
    );
    if q.len() > 0 && q.last().len() == 0 {
        q.drop_last()
    } else {
        q
    }
}

/// Calls `str::lines`, which its documentation describes as splitting at
/// line endings, a line feed or a carriage return followed by a line feed,
/// leaving the endings out, with the final line ending optional.
#[verifier::external_body]
fn str_lines(s: &str) -> (r: Vec<String>)
    ensures
        r@.map_values(|l: String| l@) == lines_of(s@),
{
    s.lines().map(|l| l.to_string()).collect()
}

/// The last component of a path, as `Path::file_name` gives it (empty
/// when there is none).
pub uninterp spec fn file_name_text(path: Seq<char>) -> Seq<char>;

/// Calls `std::path::Path::file_name` and takes the name, or nothing when
/// the path ends in `..` or is a root.  The contract states only that the
/// result is `file_name_text` of the path.
#[verifier::external_body]
pub(crate) fn path_file_name(path: &str) -> (r: String)
    ensures
        r@ == file_name_text(path@),
{
    std::path::Path::new(path).file_name().unwrap_or_default().to_string_lossy().to_string()
}

/// The entries found: one per non-blank line of `find`'s output, named
/// after the last component of the trimmed line, with nothing else known.
pub open spec fn found_entries(lines: Seq<Seq<char>>) -> Seq<Seq<char>>
    decreases lines.len(),
{
    if lines.len() == 0 {
        Seq::empty()
    } else {
        let rest = found_entries(lines.drop_last());
        let t = trim_of(lines.last());
        if t.len() == 0 {
            rest
        } else {
            rest.push(file_name_text(t))
        }
    }
}

/// The entries listed in the output of a search.
pub fn entries_from_search_output(output: &str) -> (r: Vec<FileEntry>)
    ensures
        r@.map_values(|e: FileEntry| e.name@) == found_entries(lines_of(output@)),
        forall|i: int| 0 <= i < r@.len() ==> {
            let e = #[trigger] r@[i];
            &&& !e.is_dir
            &&& e.size == 0
            &&& e.mtime == 0
            &&& e.permissions == 0
            &&& e.uid == 0
            &&& e.owner@ == Seq::<char>::empty()
        },
{
    let lines = str_lines(output);
    let ghost ls = lines@.map_values(|l: String| l@);
    let mut out: Vec<FileEntry> = Vec::new();
    let mut i: usize = 0;
    while i < lines.len()
        invariant
            i <= lines@.len(),
            ls == lines@.map_values(|l: String| l@),
            out@.map_values(|e: FileEntry| e.name@) == found_entries(ls.take(i as int)),
            forall|k: int| 0 <= k < out@.len() ==> {
                let e = #[trigger] out@[k];
                &&& !e.is_dir
                &&& e.size == 0
                &&& e.mtime == 0
                &&& e.permissions == 0
                &&& e.uid == 0
                &&& e.owner@ == Seq::<char>::empty()
            },
        decreases lines@.len() - i,
    {
        proof {
            assert(ls.take(i + 1).drop_last() =~= ls.take(i as int));
            assert(ls.take(i + 1).last() == lines@[i as int]@);
        }
        let line = str_trim(lines[i].as_str());
        if !line.is_empty() {
            let ghost before = out@;
            let name = path_file_name(line);
            out.push(FileEntry { name, is_dir: false, size: 0, mtime: 0, permissions: 0, uid: 0, owner: String::new() });
            proof {
                assert(out@.map_values(|e: FileEntry| e.name@) =~= before.map_values(|e: FileEntry| e.name@).push(
                    file_name_text(trim_of(ls[i as int])),
                ));
            }
        }
        i = i + 1;
    }
    proof {
        assert(ls.take(lines@.len() as int) =~= ls);
    }
    out
}

/// What a recursive removal does with an entry of a directory.
#[derive(Debug, Clone, Copy, PartialEq, Eq, Structural)]
pub enum RemovalStep {
    /// The `.` and `..` entries are passed over.
    Skip,
    /// A directory is emptied and removed in turn.
    Descend,
    /// Any other entry is unlinked.
    Unlink,
}

/// The step of a recursive removal for an entry named `name`: `.` and `..`
/// are skipped, directories are descended into, the rest is unlinked.
pub fn removal_step(name: &str, is_dir: bool) -> (r: RemovalStep)
    ensures
        (name@ == "."@ || name@ == ".."@) ==> r == RemovalStep::Skip,
        !(name@ == "."@ || name@ == ".."@) ==> r == (if is_dir {
            RemovalStep::Descend
        } else {
            RemovalStep::Unlink
        }),
{
    if str_eq(name, ".") || str_eq(name, "..") {
        RemovalStep::Skip
    } else if is_dir {
        RemovalStep::Descend
    } else {
        RemovalStep::Unlink
    }
}

/// Whether a write in mode `mode` appends; the default mode overwrites.
pub fn write_appends(mode: Option<&str>) -> (r: bool)
    ensures
        r == (mode matches Some(m) && m@ == "append"@),
{
    match mode {
        Some(m) => str_eq(m, "append"),
        None => false,
    }
}

/// Octal notation of `n`, without leading zeros.
pub open spec fn octal(n: nat) -> Seq<char>
    decreases n,
{
    if n < 8 {
        seq![crate::text::digit_char(n)]
    } else {
        octal(n / 8).push(crate::text::digit_char(n % 8))
    }
}

fn push_octal(s: &mut String, n: u32)
    ensures
        final(s)@ == old(s)@ + octal(n as nat),
    decreases n,
{
    if n >= 8 {
        push_octal(s, n / 8);
    }
    let d = n % 8;
    let c = match d {
        0 => '0',
        1 => '1',
        2 => '2',
        3 => '3',
        4 => '4',
        5 => '5',
        6 => '6',
        _ => '7',
    };
    proof {
        let digits = seq!['0', '1', '2', '3', '4', '5', '6', '7', '8', '9'];
        assert(digits[0] == '0' && digits[1] == '1' && digits[2] == '2' && digits[3] == '3');
        assert(digits[4] == '4' && digits[5] == '5' && digits[6] == '6' && digits[7] == '7');
        assert(c == crate::text::digit_char(d as nat));
    }
    push_char(s, c);
    proof {
        if n >= 8 {
            assert(old(s)@ + octal(n as nat) =~= old(s)@ + octal((n / 8) as nat) + seq![crate::text::digit_char((n % 8) as nat)]);
        } else {
            assert(old(s)@ + octal(n as nat) =~= old(s)@.push(crate::text::digit_char(n as nat)));
        }
    }
}

/// The mode argument of `chmod`: the permission in octal.
pub fn permission_octal(permission: u32) -> (r: String)
    ensures
        r@ == octal(permission as nat),
{
    let mut s = String::new();
    push_octal(&mut s, permission);
    proof {
        assert(s@ =~= octal(permission as nat));
    }
    s
}

/// A background file transfer as shown in the transfer list.  Times are
/// milliseconds since the Unix epoch.
#[derive(Debug)]
pub struct Transfer {
    pub id: String,
    pub session_id: String,
    pub name: String,
    pub local_path: String,
    pub remote_path: String,
    pub transfer_type: String,
    pub status: String,
    pub total_size: u64,
    pub transferred: u64,
    pub created_at: i64,
    pub error: Option<String>,
}

impl Clone for Transfer {
    fn clone(&self) -> (r: Self)
        ensures
            r == *self,
    {
        Transfer {
            id: self.id.clone(),
            session_id: self.session_id.clone(),
            name: self.name.clone(),
            local_path: self.local_path.clone(),
            remote_path: self.remote_path.clone(),
            transfer_type: self.transfer_type.clone(),
            status: self.status.clone(),
            total_size: self.total_size,
            transferred: self.transferred,
            created_at: self.created_at,
            error: crate::models::clone_opt(&self.error),
        }
    }
}

/// Direction of a background transfer.
#[derive(Debug, Clone, Copy, PartialEq, Eq, Structural)]
pub enum TransferKind {
    Download,
    Upload,
}

impl Transfer {
    /// A pending transfer record created at `now`, named after the last
    /// component of the remote path for a download and of the local path
    /// for an upload.
    pub fn new_pending(
        kind: TransferKind,
        transfer_id: &str,
        session_id: &str,
        local_path: &str,
        remote_path: &str,
        now: i64,
    ) -> (r: Self)
        ensures
            r.id@ == transfer_id@,
            r.session_id@ == session_id@,
            r.name@ == file_name_text(
                match kind {
                    TransferKind::Download => remote_path@,
                    TransferKind::Upload => local_path@,
                },
            ),
            r.local_path@ == local_path@,
            r.remote_path@ == remote_path@,
            r.transfer_type@ == (match kind {
                TransferKind::Download => "download"@,
                TransferKind::Upload => "upload"@,
            }),
            r.status@ == "pending"@,
            r.total_size == 0,
            r.transferred == 0,
            r.created_at == now,
            r.error is None,
    {
        let name = match kind {
            TransferKind::Download => path_file_name(remote_path),
            TransferKind::Upload => path_file_name(local_path),
        };
        Transfer {
            id: String::from_str(transfer_id),
            session_id: String::from_str(session_id),
            name,
            local_path: String::from_str(local_path),
            remote_path: String::from_str(remote_path),
            transfer_type: String::from_str(
                match kind {
                    TransferKind::Download => "download",
                    TransferKind::Upload => "upload",
                },
            ),
            status: String::from_str("pending"),
            total_size: 0,
            transferred: 0,
            created_at: now,
            error: None,
        }
    }

    /// The transfer started.
    pub fn mark_running(&mut self)
        ensures
            final(self).status@ == "running"@,
            *final(self) == (Transfer { status: final(self).status, ..*old(self) }),
    {
        self.status = String::from_str("running");
    }

    /// The transfer finished: all of it counts as transferred.
    pub fn mark_completed(&mut self)
        ensures
            final(self).status@ == "completed"@,
            *final(self) == (Transfer { status: final(self).status, transferred: old(self).total_size, ..*old(self) }),
    {
        self.status = String::from_str("completed");
        self.transferred = self.total_size;
    }

    /// The transfer failed with `error`.
    pub fn mark_failed(&mut self, error: String)
        ensures
            final(self).status@ == "error"@,
            *final(self) == (Transfer { status: final(self).status, error: Some(error), ..*old(self) }),
    {
        self.status = String::from_str("error");
        self.error = Some(error);
    }

    /// A cancellation request: a running or pending transfer becomes
    /// cancelled, others keep their status.
    pub fn request_cancel(&mut self)
        ensures
            (old(self).status@ == "running"@ || old(self).status@ == "pending"@) ==> final(self).status@
                == "cancelled"@ && *final(self) == (Transfer { status: final(self).status, ..*old(self) }),
            !(old(self).status@ == "running"@ || old(self).status@ == "pending"@) ==> *final(self) == *old(self),
    {
        if str_eq(self.status.as_str(), "running") || str_eq(self.status.as_str(), "pending") {
            self.status = String::from_str("cancelled");
        }
    }

    /// The transfer stopped on the user's request.
    pub fn mark_cancelled(&mut self)
        ensures
            final(self).status@ == "cancelled"@,
            *final(self) == (Transfer { status: final(self).status, ..*old(self) }),
    {
        self.status = String::from_str("cancelled");
    }

    /// Progress: `transferred` bytes so far.
    pub fn set_transferred(&mut self, transferred: u64)
        ensures
            *final(self) == (Transfer { transferred, ..*old(self) }),
    {
        self.transferred = transferred;
    }

    /// The size of the file is known.
    pub fn set_total_size(&mut self, total_size: u64)
        ensures
            *final(self) == (Transfer { total_size, ..*old(self) }),
    {
        self.total_size = total_size;
    }
}

/// Whether progress is reported again after `elapsed_ms` since the last
/// report: after more than 100 ms.
pub fn should_emit_progress(elapsed_ms: u64) -> (r: bool)
    ensures
        r == (elapsed_ms > 100),
{
    elapsed_ms > 100
}

/// `t` placed into `s`, which is sorted newest first, after every record
/// created at the same time or later.
pub open spec fn insert_newest(s: Seq<Transfer>, t: Transfer) -> Seq<Transfer>
    decreases s.len(),
{
    if s.len() == 0 {
        seq![t]
    } else if s[0].created_at >= t.created_at {
        seq![s[0]] + insert_newest(s.drop_first(), t)
    } else {
        seq![t] + s
    }
}

/// `s` sorted by creation time, newest first, keeping the order of ties.
pub open spec fn transfers_newest_first(s: Seq<Transfer>) -> Seq<Transfer>
    decreases s.len(),
{
    if s.len() == 0 {
        s
    } else {
        insert_newest(transfers_newest_first(s.drop_last()), s.last())
    }
}

proof fn lemma_insert_newest_at(s: Seq<Transfer>, t: Transfer, i: int)
    requires
        0 <= i <= s.len(),
        forall|k: int| 0 <= k < i ==> s[k].created_at >= t.created_at,
        i < s.len() ==> s[i].created_at < t.created_at,
    ensures
        s.insert(i, t) == insert_newest(s, t),
    decreases s.len(),
{
    if s.len() == 0 {
        assert(s.insert(i, t) =~= seq![t]);
    } else if i == 0 {
        assert(s.insert(0, t) =~= seq![t] + s);
    } else {
        lemma_insert_newest_at(s.drop_first(), t, i - 1);
        assert(s.insert(i, t) =~= seq![s[0]] + s.drop_first().insert(i - 1, t));
    }
}

/// The transfer list, newest first.
pub fn get_transfers(transfers: Vec<Transfer>) -> (r: Vec<Transfer>)
    ensures
        r@ == transfers_newest_first(transfers@),
{
    let ghost all = transfers@;
    assert(all.len() == transfers.len());
    let mut rest = transfers;
    let mut out: Vec<Transfer> = Vec::new();
    let mut taken: usize = 0;
    while rest.len() > 0
        invariant
            taken + rest@.len() == all.len(),
            all.len() <= usize::MAX,
            rest@ == all.subrange(taken as int, all.len() as int),
            out@ == transfers_newest_first(all.take(taken as int)),
        decreases rest@.len(),
    {
        let t = rest.remove(0);
        proof {
            assert(all.take(taken + 1).drop_last() =~= all.take(taken as int));
            assert(all.take(taken + 1).last() == t);
        }
        let mut i: usize = 0;
        while i < out.len() && out[i].created_at >= t.created_at
            invariant
                i <= out@.len(),
                forall|k: int| 0 <= k < i ==> out@[k].created_at >= t.created_at,
            decreases out@.len() - i,
        {
            i = i + 1;
        }
        proof {
            lemma_insert_newest_at(out@, t, i as int);
        }
        out.insert(i, t);
        taken = taken + 1;
    }
    proof {
        assert(all.take(all.len() as int) =~= all);
    }
    out
}

/// A message of the session layer.
#[derive(Debug, Clone, Copy, PartialEq, Eq, Structural)]
pub enum SessionFailure {
    /// No session has the identifier asked for.
    SessionNotFound,
    /// The session worker did not answer.
    NoResponse,
}

/// The text of a session failure.
pub fn session_failure_text(f: SessionFailure) -> (r: String)
    ensures
        r@ == (match f {
            SessionFailure::SessionNotFound => "Session not found"@,
            SessionFailure::NoResponse => "Failed to receive response from SSH Manager"@,
        }),
{
    match f {
        SessionFailure::SessionNotFound => String::from_str("Session not found"),
        SessionFailure::NoResponse => String::from_str("Failed to receive response from SSH Manager"),
    }
}

/// The text of a failure to hand a command to the session worker, or of a
/// failed search, with the failure's text.
pub fn prefixed_failure(kind: u8, detail: &str) -> (r: String)
    requires
        kind < 4,
    ensures
        r@ == (if kind == 0 {
            "Failed to send command: "@
        } else if kind == 1 {
            "Find command failed: "@
        } else if kind == 2 {
            "Task join error: "@
        } else {
            "UTF-8 Error: "@
        }) + detail@,
{
    let prefix = if kind == 0 {
        "Failed to send command: "
    } else if kind == 1 {
        "Find command failed: "
    } else if kind == 2 {
        "Task join error: "
    } else {
        "UTF-8 Error: "
    };
    String::from_str(prefix).concat(detail)
}

/// A listing is in listing order: directories before files, and names
/// ascending among entries of the same kind.
pub proof fn law_listing_sorted(s: Seq<FileEntry>)
    ensures
        listing_order(s).len() == s.len(),
        forall|i: int| 0 <= i < listing_order(s).len() - 1 ==> !listed_before(
            #[trigger] listing_order(s)[i + 1],
            listing_order(s)[i],
        ),
    decreases s.len(),
{
    if s.len() > 0 {
        law_listing_sorted(s.drop_last());
        lemma_insert_listed_keeps(listing_order(s.drop_last()), s.last());
    }
}

proof fn lemma_insert_listed_keeps(s: Seq<FileEntry>, e: FileEntry)
    requires
        forall|i: int| 0 <= i < s.len() - 1 ==> !listed_before(#[trigger] s[i + 1], s[i]),
    ensures
        insert_listed(s, e).len() == s.len() + 1,
        forall|i: int| 0 <= i < insert_listed(s, e).len() - 1 ==> !listed_before(
            #[trigger] insert_listed(s, e)[i + 1],
            insert_listed(s, e)[i],
        ),
        s.len() > 0 ==> insert_listed(s, e)[0] == s[0] || insert_listed(s, e)[0] == e,
    decreases s.len(),
{
    if s.len() > 0 && !listed_before(e, s[0]) {
        let t = s.drop_first();
        assert forall|i: int| 0 <= i < t.len() - 1 implies !listed_before(#[trigger] t[i + 1], t[i]) by {
            assert(t[i + 1] == s[i + 2]);
            assert(t[i] == s[i + 1]);
        }
        lemma_insert_listed_keeps(t, e);
        let r = insert_listed(s, e);
        assert(r == seq![s[0]] + insert_listed(t, e));
        assert forall|i: int| 0 <= i < r.len() - 1 implies !listed_before(#[trigger] r[i + 1], r[i]) by {
            if i > 0 {
                assert(r[i + 1] == insert_listed(t, e)[i]);
                assert(r[i] == insert_listed(t, e)[i - 1]);
                let k = i - 1;
                assert(!listed_before(insert_listed(t, e)[k + 1], insert_listed(t, e)[k]));
            } else {
                assert(r[1] == insert_listed(t, e)[0]);
                if t.len() > 0 {
                    assert(t[0] == s[1]);
                    assert(!listed_before(s[1], s[0]));
                    assert(insert_listed(t, e)[0] == t[0] || insert_listed(t, e)[0] == e);
                } else {
                    assert(insert_listed(t, e) == seq![e]);
                }
            }
        }
    } else if s.len() > 0 {
        let r = insert_listed(s, e);
        assert(r == seq![e] + s);
        assert forall|i: int| 0 <= i < r.len() - 1 implies !listed_before(#[trigger] r[i + 1], r[i]) by {
            if i > 0 {
                assert(r[i + 1] == s[i]);
                assert(r[i] == s[i - 1]);
                let k = i - 1;
                assert(!listed_before(s[k + 1], s[k]));
            } else {
                assert(r[1] == s[0]);
                lemma_listed_asym(e, s[0]);
            }
        }
    }
}

proof fn lemma_listed_asym(a: FileEntry, b: FileEntry)
    requires
        listed_before(a, b),
    ensures
        !listed_before(b, a),
{
    if a.is_dir == b.is_dir {
        lemma_name_less_asym(a.name@, b.name@);
    }
}

proof fn lemma_name_less_asym(a: Seq<char>, b: Seq<char>)
    requires
        name_less(a, b),
    ensures
        !name_less(b, a),
    decreases a.len(),
{
    if a.len() > 0 && b.len() > 0 && a[0] == b[0] {
        lemma_name_less_asym(a.drop_first(), b.drop_first());
    }
}

} // verus!
