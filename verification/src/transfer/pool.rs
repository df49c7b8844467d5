//! Book-keeping of the pool of transfer connections, kept apart from the
//! interactive sessions.  The pool decides which connection serves a client,
//! when a new one is to be opened, and which are dropped as idle; opening
//! and closing the SSH connections themselves is left to the caller, who
//! keys them by client and connection index.
use vstd::prelude::*;

use crate::clock::{elapsed_between, elapsed_ms};
use crate::text::{decimal, str_eq, with_decimal};
use crate::transfer::types::TransferSettings;

verus! {

/// Book-keeping of one transfer connection.  Times are milliseconds on the
/// clock of [`crate::clock`].
#[derive(Debug, Clone, Copy, PartialEq, Eq, Structural)]
pub struct TransferConnection {
    pub id: usize,
    pub in_use: bool,
    pub last_used_ms: u64,
}

impl TransferConnection {
    /// A connection with index `id`, free, last used at `now`.
    pub fn new(id: usize, now: u64) -> (r: Self)
        ensures
            r == (TransferConnection { id, in_use: false, last_used_ms: now }),
    {
        TransferConnection { id, in_use: false, last_used_ms: now }
    }

    /// Marks the connection in use; true when it was free before.
    pub fn acquire(&mut self) -> (r: bool)
        ensures
            r == !old(self).in_use,
            *final(self) == (TransferConnection { in_use: true, ..*old(self) }),
    {
        let was = self.in_use;
        self.in_use = true;
        !was
    }

    /// Marks the connection free.
    pub fn release(&mut self)
        ensures
            *final(self) == (TransferConnection { in_use: false, ..*old(self) }),
    {
        self.in_use = false;
    }

    /// Use times are kept by the pool, so this changes nothing.
    pub fn touch(&self) {
    }

    /// Whether the connection is free.
    pub fn is_idle(&self) -> (r: bool)
        ensures
            r == !self.in_use,
    {
        !self.in_use
    }
}

/// The connections of one client.
#[derive(Debug)]
pub struct PoolEntry {
    pub client_id: String,
    pub connections: Vec<TransferConnection>,
    pub last_access_ms: u64,
    /// Index given to the next connection opened for the client.
    pub next_index: usize,
}

/// What a pool entry holds.
pub struct PoolEntryView {
    pub client_id: Seq<char>,
    pub connections: Seq<TransferConnection>,
    pub last_access_ms: u64,
    pub next_index: usize,
}

impl View for PoolEntry {
    type V = PoolEntryView;

    open spec fn view(&self) -> PoolEntryView {
        PoolEntryView {
            client_id: self.client_id@,
            connections: self.connections@,
            last_access_ms: self.last_access_ms,
            next_index: self.next_index,
        }
    }
}

/// What the pool decided for a client asking for a connection.
#[derive(Debug, Clone, Copy, PartialEq, Eq, Structural)]
pub enum AcquireStep {
    /// The free connection with this index is now in use by the caller.
    Reuse(usize),
    /// A new connection with this index is to be opened; report it with
    /// [`TransferPool::connection_opened`].
    Open(usize),
}

/// Statistics of one client's connections.
#[derive(Debug, Clone, Copy, PartialEq, Eq, Structural)]
pub struct PoolStats {
    pub total_connections: usize,
    pub idle_connections: usize,
    /// When the client last asked for a connection, in milliseconds.
    pub last_access_ms: u64,
}

/// `post` is the pool `pre` (at most `max` connections a client) after
/// `client` asked for a connection at `now` and got `r`: its entry, made if
/// new, is touched at `now`; the first free connection is reused, or else a
/// new one is to be opened below the limit, or else the pool is exhausted.
/// Other entries are unchanged, and no entry grows past the limit.
pub open spec fn acquire_outcome(
    pre: Seq<PoolEntryView>,
    max: usize,
    client: Seq<char>,
    now: u64,
    r: Result<AcquireStep, Seq<char>>,
    post: Seq<PoolEntryView>,
) -> bool {
    let i = entry_slot(pre, client);
    let e = entry_or_new(pre, client, now);
    &&& post.len() == (if has_entry(pre, client) { pre.len() } else { pre.len() + 1 })
    &&& forall|k: int| 0 <= k < pre.len() && k != i ==> post[k] == pre[k]
    &&& post[i].client_id == client
    &&& post[i].last_access_ms == now
    &&& (forall|k: int| 0 <= k < pre.len() ==> #[trigger] pre[k].connections.len() <= max) ==> (forall|k: int|
        0 <= k < post.len() ==> #[trigger] post[k].connections.len() <= max)
    &&& match r {
        Ok(AcquireStep::Reuse(id)) => exists|j: int|
            is_first_idle(e.connections, j) && id == e.connections[j].id && post[i].connections
                == e.connections.update(j, TransferConnection { in_use: true, ..e.connections[j] })
                && post[i].next_index == e.next_index,
        Ok(AcquireStep::Open(index)) => {
            &&& forall|k: int| 0 <= k < e.connections.len() ==> e.connections[k].in_use
            &&& e.connections.len() < max
            &&& index == e.next_index
            &&& post[i].next_index == e.next_index + 1
            &&& post[i].connections == e.connections
        },
        Err(m) => {
            &&& forall|k: int| 0 <= k < e.connections.len() ==> e.connections[k].in_use
            &&& e.connections.len() >= max
            &&& m == exhausted_text(client, max)
            &&& post[i].connections == e.connections
            &&& post[i].next_index == e.next_index
        },
    }
}

/// The pool `pre` once connection `index`, opened at `now` for `client`,
/// joined the client's entry in use; unchanged without such an entry.
pub open spec fn opened_entries(pre: Seq<PoolEntryView>, client: Seq<char>, index: usize, now: u64) -> Seq<
    PoolEntryView,
> {
    if has_entry(pre, client) {
        pre.update(
            entry_slot(pre, client),
            PoolEntryView {
                connections: pre[entry_slot(pre, client)].connections.push(
                    TransferConnection { id: index, in_use: true, last_used_ms: now },
                ),
                ..pre[entry_slot(pre, client)]
            },
        )
    } else {
        pre
    }
}

/// `post` is the pool `pre` once `client` handed back connection
/// `conn_id`: in the client's first entry every connection with that index
/// is free; nothing else changes.
pub open spec fn release_outcome(
    pre: Seq<PoolEntryView>,
    post: Seq<PoolEntryView>,
    client: Seq<char>,
    conn_id: usize,
) -> bool {
    &&& post.len() == pre.len()
    &&& forall|k: int|
        0 <= k < pre.len() ==> {
            let a = #[trigger] pre[k];
            let b = post[k];
            &&& b.client_id == a.client_id
            &&& b.last_access_ms == a.last_access_ms
            &&& b.next_index == a.next_index
            &&& b.connections.len() == a.connections.len()
            &&& forall|j: int|
                0 <= j < a.connections.len() ==> #[trigger] b.connections[j] == (if is_first_entry(pre, client, k)
                    && a.connections[j].id == conn_id {
                    TransferConnection { in_use: false, ..a.connections[j] }
                } else {
                    a.connections[j]
                })
        }
}

/// Transfer connections grouped by client.
pub struct TransferPool {
    pools: Vec<PoolEntry>,
    settings: TransferSettings,
    next_id: usize,
}

/// The entries of a pool, as views.
pub open spec fn entry_views(s: Seq<PoolEntry>) -> Seq<PoolEntryView> {
    s.map_values(|e: PoolEntry| e@)
}

/// `i` is the first entry of `s` for client `id`.
pub open spec fn is_first_entry(s: Seq<PoolEntryView>, id: Seq<char>, i: int) -> bool {
    &&& 0 <= i < s.len()
    &&& s[i].client_id == id
    &&& forall|k: int| 0 <= k < i ==> s[k].client_id != id
}

/// `s` has an entry for client `id`.
pub open spec fn has_entry(s: Seq<PoolEntryView>, id: Seq<char>) -> bool {
    exists|i: int| 0 <= i < s.len() && s[i].client_id == id
}

/// `j` is the first free connection of `c`.
pub open spec fn is_first_idle(c: Seq<TransferConnection>, j: int) -> bool {
    &&& 0 <= j < c.len()
    &&& !c[j].in_use
    &&& forall|k: int| 0 <= k < j ==> c[k].in_use
}

/// Number of free connections in `c`.
pub open spec fn idle_count(c: Seq<TransferConnection>) -> nat
    decreases c.len(),
{
    if c.len() == 0 {
        0
    } else {
        idle_count(c.drop_last()) + if c.last().in_use { 0nat } else { 1nat }
    }
}

/// Number of connections over all entries.
pub open spec fn connection_total(s: Seq<PoolEntryView>) -> nat
    decreases s.len(),
{
    if s.len() == 0 {
        0
    } else {
        connection_total(s.drop_last()) + s.last().connections.len()
    }
}

/// Number of free connections over all entries.
pub open spec fn idle_total(s: Seq<PoolEntryView>) -> nat
    decreases s.len(),
{
    if s.len() == 0 {
        0
    } else {
        idle_total(s.drop_last()) + idle_count(s.last().connections)
    }
}

/// What the clean-up at `now` keeps of a client's connections: those in use
/// and the free ones unused for longer than the idle timeout.
pub open spec fn kept_after_cleanup(c: Seq<TransferConnection>, now: u64, idle_ms: u64) -> Seq<TransferConnection>
    decreases c.len(),
{
    if c.len() == 0 {
        c
    } else {
        let rest = kept_after_cleanup(c.drop_last(), now, idle_ms);
        let x = c.last();
        if x.in_use || elapsed_between(x.last_used_ms, now) > idle_ms {
            rest.push(x)
        } else {
            rest
        }
    }
}

/// The entries after the clean-up at `now`: entries not accessed for more
/// than twice the idle timeout are dropped, the others keep the connections
/// of [`kept_after_cleanup`].
pub open spec fn entries_after_cleanup(s: Seq<PoolEntryView>, now: u64, idle_ms: u64) -> Seq<PoolEntryView>
    decreases s.len(),
{
    if s.len() == 0 {
        s
    } else {
        let rest = entries_after_cleanup(s.drop_last(), now, idle_ms);
        let e = s.last();
        if elapsed_between(e.last_access_ms, now) > 2 * idle_ms {
            rest
        } else {
            rest.push(PoolEntryView { connections: kept_after_cleanup(e.connections, now, idle_ms), ..e })
        }
    }
}

/// The entries without those of client `id`.
pub open spec fn without_client(s: Seq<PoolEntryView>, id: Seq<char>) -> Seq<PoolEntryView>
    decreases s.len(),
{
    if s.len() == 0 {
        s
    } else {
        let rest = without_client(s.drop_last(), id);
        if s.last().client_id == id {
            rest
        } else {
            rest.push(s.last())
        }
    }
}

/// The refusal when every connection of a client is busy and no more may be
/// opened.
pub open spec fn exhausted_text(id: Seq<char>, max: usize) -> Seq<char> {
    "No available transfer connections for client "@ + id + " (max: "@ + decimal(max as nat) + ")"@
}

fn find_first_idle(c: &Vec<TransferConnection>) -> (r: Option<usize>)
    ensures
        match r {
            Some(j) => is_first_idle(c@, j as int),
            None => forall|k: int| 0 <= k < c@.len() ==> c@[k].in_use,
        },
{
    let mut j: usize = 0;
    while j < c.len()
        invariant
            j <= c@.len(),
            forall|k: int| 0 <= k < j ==> c@[k].in_use,
        decreases c@.len() - j,
    {
        if !c[j].in_use {
            return Some(j);
        }
        j = j + 1;
    }
    None
}

fn count_idle(c: &Vec<TransferConnection>) -> (r: usize)
    ensures
        r == idle_count(c@),
{
    let mut n: usize = 0;
    let mut j: usize = 0;
    while j < c.len()
        invariant
            j <= c@.len(),
            n == idle_count(c@.take(j as int)),
            n <= j,
        decreases c@.len() - j,
    {
        proof {
            assert(c@.take(j + 1).drop_last() =~= c@.take(j as int));
        }
        if !c[j].in_use {
            n = n + 1;
        }
        j = j + 1;
    }
    proof {
        assert(c@.take(c@.len() as int) =~= c@);
    }
    n
}

impl TransferPool {
    /// An empty pool under `settings`.
    pub fn new(settings: TransferSettings) -> (r: Self)
        ensures
            r.entries() == Seq::<PoolEntryView>::empty(),
            r.settings() == settings,
    {
        TransferPool { pools: Vec::new(), settings, next_id: 0 }
    }

    /// The entries, in the order clients first asked.
    pub closed spec fn entries(&self) -> Seq<PoolEntryView> {
        entry_views(self.pools@)
    }

    /// The settings.
    pub closed spec fn settings(&self) -> TransferSettings {
        self.settings
    }

    /// Whether a client may ask for a connection without a count
    /// overflowing: there is room for another entry, and every entry can
    /// number one more connection.
    pub fn has_room(&self) -> (r: bool)
        ensures
            r == (self.entries().len() < usize::MAX && forall|k: int|
                0 <= k < self.entries().len() ==> #[trigger] self.entries()[k].next_index < usize::MAX),
    {
        if self.pools.len() == usize::MAX {
            proof {
                assert(self.entries().len() == self.pools@.len());
            }
            return false;
        }
        let mut i: usize = 0;
        while i < self.pools.len()
            invariant
                i <= self.pools@.len(),
                self.entries().len() == self.pools@.len(),
                forall|k: int| 0 <= k < i ==> #[trigger] self.entries()[k].next_index < usize::MAX,
            decreases self.pools@.len() - i,
        {
            if self.pools[i].next_index == usize::MAX {
                proof {
                    assert(self.entries()[i as int] == self.pools@[i as int]@);
                    assert(self.entries()[i as int].next_index == usize::MAX);
                    assert(!(forall|k: int|
                        0 <= k < self.entries().len() ==> #[trigger] self.entries()[k].next_index < usize::MAX));
                }
                return false;
            }
            i = i + 1;
        }
        true
    }

    fn find_client(&self, client_id: &str) -> (r: Option<usize>)
        ensures
            match r {
                Some(i) => is_first_entry(self.entries(), client_id@, i as int),
                None => !has_entry(self.entries(), client_id@),
            },
    {
        let mut i: usize = 0;
        while i < self.pools.len()
            invariant
                i <= self.pools@.len(),
                forall|k: int| 0 <= k < i ==> self.entries()[k].client_id != client_id@,
            decreases self.pools@.len() - i,
        {
            if str_eq(self.pools[i].client_id.as_str(), client_id) {
                return Some(i);
            }
            i = i + 1;
        }
        None
    }

    /// A client asks for a connection at `now`.  Its entry is created when
    /// it has none, and its access time set to `now`.  The first free
    /// connection is handed out; when all are busy and fewer than the
    /// configured maximum exist, the caller is to open one with the entry's
    /// next index; otherwise the request is refused.
    pub fn acquire_at(&mut self, client_id: &str, now: u64) -> (r: Result<AcquireStep, String>)
        requires
            old(self).entries().len() < usize::MAX,
            forall|k: int| 0 <= k < old(self).entries().len() ==> #[trigger] old(self).entries()[k].next_index < usize::MAX,
        ensures
            final(self).settings() == old(self).settings(),
            acquire_outcome(
                old(self).entries(),
                old(self).settings().max_transfer_connections,
                client_id@,
                now,
                match r {
                    Ok(step) => Ok(step),
                    Err(m) => Err(m@),
                },
                final(self).entries(),
            ),
    {
        let ghost pre = self.entries();
        let i = match self.find_client(client_id) {
            Some(i) => {
                proof {
                    lemma_first_entry_unique(pre, client_id@, i as int);
                }
                i
            },
            None => {
                let entry = PoolEntry {
                    client_id: String::from_str(client_id),
                    connections: Vec::new(),
                    last_access_ms: now,
                    next_index: 0,
                };
                self.pools.push(entry);
                self.pools.len() - 1
            },
        };
        assert(self.entries()[i as int] == entry_or_new(pre, client_id@, now)) by {
            if !has_entry(pre, client_id@) {
                assert(self.entries()[i as int].connections =~= Seq::<TransferConnection>::empty());
            }
        }
        let ghost mid = self.entries();
        let max = self.settings.max_transfer_connections;
        let mut entry = self.pools.remove(i);
        assert(entry@ == mid[i as int]);
        assert(entry.next_index < usize::MAX) by {
            if has_entry(pre, client_id@) {
                assert(pre[entry_slot(pre, client_id@)].next_index < usize::MAX);
            }
        }
        entry.last_access_ms = now;
        let r = match find_first_idle(&entry.connections) {
            Some(j) => {
                let mut c = entry.connections[j];
                let _ = c.acquire();
                entry.connections.set(j, c);
                Ok(AcquireStep::Reuse(c.id))
            },
            None => {
                if entry.connections.len() < max {
                    let index = entry.next_index;
                    entry.next_index = entry.next_index + 1;
                    Ok(AcquireStep::Open(index))
                } else {
                    let m = with_decimal(
                        String::from_str("No available transfer connections for client ").concat(client_id).concat(" (max: "),
                        max as u64,
                    ).concat(")");
                    Err(m)
                }
            },
        };
        let ghost done = entry@;
        self.pools.insert(i, entry);
        proof {
            assert(self.entries() =~= mid.update(i as int, done));
            let post = self.entries();
            if forall|k: int| 0 <= k < pre.len() ==> #[trigger] pre[k].connections.len() <= max {
                assert forall|k: int| 0 <= k < post.len() implies #[trigger] post[k].connections.len() <= max by {
                    if k != i {
                        assert(post[k] == mid[k]);
                        assert(mid[k] == pre[k]);
                    } else if has_entry(pre, client_id@) {
                        assert(pre[entry_slot(pre, client_id@)].connections.len() <= max);
                    }
                }
            }
        }
        r
    }

    /// A connection with index `index`, opened at `now` after
    /// [`AcquireStep::Open`], joins client `client_id`'s entry, in use.  A
    /// client without an entry is left alone.
    pub fn connection_opened(&mut self, client_id: &str, index: usize, now: u64)
        ensures
            final(self).settings() == old(self).settings(),
            final(self).entries() == opened_entries(old(self).entries(), client_id@, index, now),
    {
        let ghost pre = self.entries();
        if let Some(i) = self.find_client(client_id) {
            proof {
                lemma_first_entry_unique(pre, client_id@, i as int);
            }
            let mut entry = self.pools.remove(i);
            let mut c = TransferConnection::new(index, now);
            let _ = c.acquire();
            entry.connections.push(c);
            let ghost done = entry@;
            self.pools.insert(i, entry);
            proof {
                assert(self.entries() =~= pre.update(i as int, done));
            }
        }
    }

    /// Client `client_id` hands back connection `conn_id`; nothing changes
    /// when the client has no entry or no such connection.
    pub fn release(&mut self, client_id: &str, conn_id: usize)
        ensures
            final(self).settings() == old(self).settings(),
            release_outcome(old(self).entries(), final(self).entries(), client_id@, conn_id),
    {
        let ghost pre = self.entries();
        if let Some(i) = self.find_client(client_id) {
            proof {
                lemma_first_entry_unique(pre, client_id@, i as int);
            }
            let mut entry = self.pools.remove(i);
            let ghost orig = entry.connections@;
            let mut j: usize = 0;
            while j < entry.connections.len()
                invariant
                    j <= entry.connections@.len(),
                    entry.connections@.len() == orig.len(),
                    entry@.client_id == pre[i as int].client_id,
                    entry@.last_access_ms == pre[i as int].last_access_ms,
                    entry@.next_index == pre[i as int].next_index,
                    orig == pre[i as int].connections,
                    forall|m: int| 0 <= m < j ==> #[trigger] entry.connections@[m] == (if orig[m].id == conn_id {
                        TransferConnection { in_use: false, ..orig[m] }
                    } else {
                        orig[m]
                    }),
                    forall|m: int| j <= m < orig.len() ==> #[trigger] entry.connections@[m] == orig[m],
                decreases orig.len() - j,
            {
                if entry.connections[j].id == conn_id {
                    let mut c = entry.connections[j];
                    c.release();
                    entry.connections.set(j, c);
                }
                j = j + 1;
            }
            let ghost done = entry@;
            self.pools.insert(i, entry);
            proof {
                assert(self.entries() =~= pre.update(i as int, done));
                assert forall|k: int| 0 <= k < pre.len() && k != i implies !is_first_entry(pre, client_id@, k) by {
                    lemma_first_entry_unique(pre, client_id@, i as int);
                }
            }
        } else {
            proof {
                assert forall|k: int| 0 <= k < pre.len() implies !is_first_entry(pre, client_id@, k) by {}
            }
        }
    }

    /// Drops clients not seen for more than twice the idle timeout, and of
    /// the others the free connections used within the idle timeout.
    pub fn cleanup_idle_at(&mut self, now: u64)
        requires
            old(self).settings().transfer_connection_idle_timeout_secs * 2000 <= u64::MAX,
        ensures
            final(self).settings() == old(self).settings(),
            final(self).entries() == entries_after_cleanup(
                old(self).entries(),
                now,
                (old(self).settings().transfer_connection_idle_timeout_secs * 1000) as u64,
            ),
    {
        let idle_ms = self.settings.idle_timeout() * 1000;
        let ghost pre = self.entries();
        let mut rest: Vec<PoolEntry> = Vec::new();
        std::mem::swap(&mut rest, &mut self.pools);
        let ghost all = rest@;
        assert(all.len() == rest.len());
        let mut kept: Vec<PoolEntry> = Vec::new();
        let mut taken: usize = 0;
        while rest.len() > 0
            invariant
                taken + rest@.len() == all.len(),
                all.len() <= usize::MAX,
                rest@ == all.subrange(taken as int, all.len() as int),
                entry_views(kept@) == entries_after_cleanup(entry_views(all.take(taken as int)), now, idle_ms),
                pre == entry_views(all),
                self.settings == old(self).settings,
                2 * idle_ms <= u64::MAX,
            decreases rest@.len(),
        {
            let mut e = rest.remove(0);
            proof {
                assert(entry_views(all.take(taken + 1)).drop_last() =~= entry_views(all.take(taken as int)));
                assert(entry_views(all.take(taken + 1)).last() == e@);
            }
            if elapsed_ms(e.last_access_ms, now) <= 2 * idle_ms {
                let ghost ev = e@;
                let mut conns: Vec<TransferConnection> = Vec::new();
                std::mem::swap(&mut conns, &mut e.connections);
                e.connections = keep_connections(conns, now, idle_ms);
                proof {
                    assert(e@ == PoolEntryView { connections: kept_after_cleanup(ev.connections, now, idle_ms), ..ev });
                }
                let ghost kb = kept@;
                let ghost nv = e@;
                kept.push(e);
                proof {
                    assert(entry_views(kept@) =~= entry_views(kb).push(nv));
                }
            }
            taken = taken + 1;
        }
        proof {
            assert(all.take(all.len() as int) =~= all);
        }
        self.pools = kept;
    }
}

impl TransferPool {
    /// Statistics of client `client_id`'s connections; `None` when it has no
    /// entry.
    pub fn stats(&self, client_id: &str) -> (r: Option<PoolStats>)
        ensures
            !has_entry(self.entries(), client_id@) ==> r is None,
            has_entry(self.entries(), client_id@) ==> r == Some(
                PoolStats {
                    total_connections: self.entries()[entry_slot(self.entries(), client_id@)].connections.len() as usize,
                    idle_connections: idle_count(self.entries()[entry_slot(self.entries(), client_id@)].connections) as usize,
                    last_access_ms: self.entries()[entry_slot(self.entries(), client_id@)].last_access_ms,
                },
            ),
    {
        match self.find_client(client_id) {
            Some(i) => {
                proof {
                    lemma_first_entry_unique(self.entries(), client_id@, i as int);
                }
                let e = &self.pools[i];
                Some(PoolStats {
                    total_connections: e.connections.len(),
                    idle_connections: count_idle(&e.connections),
                    last_access_ms: e.last_access_ms,
                })
            },
            None => None,
        }
    }

    /// Drops every entry of client `client_id`.
    pub fn remove_client(&mut self, client_id: &str)
        ensures
            final(self).settings() == old(self).settings(),
            final(self).entries() == without_client(old(self).entries(), client_id@),
    {
        let mut rest: Vec<PoolEntry> = Vec::new();
        std::mem::swap(&mut rest, &mut self.pools);
        let ghost all = rest@;
        assert(all.len() == rest.len());
        let mut kept: Vec<PoolEntry> = Vec::new();
        let mut taken: usize = 0;
        while rest.len() > 0
            invariant
                taken + rest@.len() == all.len(),
                all.len() <= usize::MAX,
                rest@ == all.subrange(taken as int, all.len() as int),
                entry_views(kept@) == without_client(entry_views(all.take(taken as int)), client_id@),
                self.settings == old(self).settings,
                entry_views(all) == old(self).entries(),
            decreases rest@.len(),
        {
            let e = rest.remove(0);
            proof {
                assert(entry_views(all.take(taken + 1)).drop_last() =~= entry_views(all.take(taken as int)));
                assert(entry_views(all.take(taken + 1)).last() == e@);
            }
            if !str_eq(e.client_id.as_str(), client_id) {
                let ghost kb = kept@;
                let ghost nv = e@;
                kept.push(e);
                proof {
                    assert(entry_views(kept@) =~= entry_views(kb).push(nv));
                }
            }
            taken = taken + 1;
        }
        proof {
            assert(all.take(all.len() as int) =~= all);
        }
        self.pools = kept;
    }

    /// Number of connections over all clients.
    pub fn total_connections(&self) -> (r: usize)
        requires
            connection_total(self.entries()) <= usize::MAX,
        ensures
            r == connection_total(self.entries()),
    {
        let mut n: usize = 0;
        let mut i: usize = 0;
        while i < self.pools.len()
            invariant
                i <= self.pools@.len(),
                n == connection_total(self.entries().take(i as int)),
                connection_total(self.entries()) <= usize::MAX,
            decreases self.pools@.len() - i,
        {
            proof {
                assert(self.entries().take(i + 1).drop_last() =~= self.entries().take(i as int));
                lemma_total_prefix(self.entries(), i + 1);
            }
            n = n + self.pools[i].connections.len();
            i = i + 1;
        }
        proof {
            assert(self.entries().take(self.pools@.len() as int) =~= self.entries());
        }
        n
    }

    /// Number of free connections over all clients.
    pub fn total_idle_connections(&self) -> (r: usize)
        requires
            connection_total(self.entries()) <= usize::MAX,
        ensures
            r == idle_total(self.entries()),
    {
        let mut n: usize = 0;
        let mut i: usize = 0;
        while i < self.pools.len()
            invariant
                i <= self.pools@.len(),
                n == idle_total(self.entries().take(i as int)),
                connection_total(self.entries()) <= usize::MAX,
            decreases self.pools@.len() - i,
        {
            proof {
                assert(self.entries().take(i + 1).drop_last() =~= self.entries().take(i as int));
                lemma_total_prefix(self.entries(), i + 1);
                lemma_idle_le_total(self.entries().take(i + 1));
            }
            n = n + count_idle(&self.pools[i].connections);
            i = i + 1;
        }
        proof {
            assert(self.entries().take(self.pools@.len() as int) =~= self.entries());
        }
        n
    }
}

proof fn lemma_total_prefix(s: Seq<PoolEntryView>, k: int)
    requires
        0 <= k <= s.len(),
    ensures
        connection_total(s.take(k)) <= connection_total(s),
    decreases s.len(),
{
    if k < s.len() {
        assert(s.drop_last().take(k) =~= s.take(k));
        lemma_total_prefix(s.drop_last(), k);
    } else {
        assert(s.take(k) =~= s);
    }
}

/// A client never has more free connections than connections.
pub proof fn lemma_idle_count_le(c: Seq<TransferConnection>)
    ensures
        idle_count(c) <= c.len(),
    decreases c.len(),
{
    if c.len() > 0 {
        lemma_idle_count_le(c.drop_last());
    }
}

/// The pool never has more free connections than connections, so its usage
/// is never negative.
pub proof fn lemma_idle_le_total(s: Seq<PoolEntryView>)
    ensures
        idle_total(s) <= connection_total(s),
    decreases s.len(),
{
    if s.len() > 0 {
        lemma_idle_le_total(s.drop_last());
        lemma_idle_count_le(s.last().connections);
    }
}

/// The slot of client `id`'s entry: its first entry, or the end when it has
/// none.
pub open spec fn entry_slot(s: Seq<PoolEntryView>, id: Seq<char>) -> int {
    if has_entry(s, id) {
        choose|i: int| is_first_entry(s, id, i)
    } else {
        s.len() as int
    }
}

/// Client `id`'s entry, or a fresh one accessed at `now`.
pub open spec fn entry_or_new(s: Seq<PoolEntryView>, id: Seq<char>, now: u64) -> PoolEntryView {
    if has_entry(s, id) {
        s[entry_slot(s, id)]
    } else {
        PoolEntryView { client_id: id, connections: seq![], last_access_ms: now, next_index: 0 }
    }
}

proof fn lemma_first_entry_unique(s: Seq<PoolEntryView>, id: Seq<char>, i: int)
    requires
        is_first_entry(s, id, i),
    ensures
        has_entry(s, id),
        entry_slot(s, id) == i,
{
    assert(s[i].client_id == id);
    let j = choose|j: int| is_first_entry(s, id, j);
    assert(is_first_entry(s, id, j));
    if j < i {
        assert(s[j].client_id != id);
    }
    if i < j {
        assert(s[i].client_id != id);
    }
}

/// The clean-up of one client's connections keeps exactly those in use and
/// the free ones unused for longer than the idle timeout: a connection that
/// is in use is never dropped, and a free one used within the timeout never
/// stays.
pub proof fn law_cleanup_connections(c: Seq<TransferConnection>, now: u64, idle_ms: u64)
    ensures
        forall|j: int|
            0 <= j < c.len() && (c[j].in_use || elapsed_between(c[j].last_used_ms, now) > idle_ms)
                ==> kept_after_cleanup(c, now, idle_ms).contains(#[trigger] c[j]),
        forall|x: TransferConnection|
            #[trigger] kept_after_cleanup(c, now, idle_ms).contains(x) ==> c.contains(x) && (x.in_use
                || elapsed_between(x.last_used_ms, now) > idle_ms),
        kept_after_cleanup(c, now, idle_ms).len() <= c.len(),
    decreases c.len(),
{
    if c.len() > 0 {
        let init = c.drop_last();
        let rest = kept_after_cleanup(init, now, idle_ms);
        law_cleanup_connections(init, now, idle_ms);
        let r = kept_after_cleanup(c, now, idle_ms);
        let x = c.last();
        assert forall|j: int|
            0 <= j < c.len() && (c[j].in_use || elapsed_between(c[j].last_used_ms, now) > idle_ms)
                implies r.contains(#[trigger] c[j]) by {
            if j < c.len() - 1 {
                assert(init[j] == c[j]);
                assert(rest.contains(init[j]));
                let k = choose|k: int| 0 <= k < rest.len() && rest[k] == init[j];
                if x.in_use || elapsed_between(x.last_used_ms, now) > idle_ms {
                    assert(r[k] == rest[k]);
                }
            } else {
                assert(r[r.len() - 1] == x);
            }
        }
        assert forall|y: TransferConnection| #[trigger] r.contains(y) implies c.contains(y) && (y.in_use
            || elapsed_between(y.last_used_ms, now) > idle_ms) by {
            let k = choose|k: int| 0 <= k < r.len() && r[k] == y;
            if k < rest.len() {
                assert(rest[k] == y);
                assert(rest.contains(y));
                let i = choose|i: int| 0 <= i < init.len() && init[i] == y;
                assert(c[i] == y);
            } else {
                assert(c[c.len() - 1] == y);
            }
        }
    }
}

/// What the clean-up does to the entries: every client accessed within twice
/// the idle timeout keeps its entry, with the connections of
/// [`kept_after_cleanup`]; no other entry comes out.
proof fn lemma_entries_after_cleanup(s: Seq<PoolEntryView>, now: u64, idle_ms: u64)
    ensures
        forall|k: int|
            0 <= k < s.len() && elapsed_between(#[trigger] s[k].last_access_ms, now) <= 2 * idle_ms
                ==> entries_after_cleanup(s, now, idle_ms).contains(
                PoolEntryView { connections: kept_after_cleanup(s[k].connections, now, idle_ms), ..s[k] },
            ),
    decreases s.len(),
{
    if s.len() > 0 {
        let init = s.drop_last();
        let rest = entries_after_cleanup(init, now, idle_ms);
        lemma_entries_after_cleanup(init, now, idle_ms);
        let r = entries_after_cleanup(s, now, idle_ms);
        let e = s.last();
        assert forall|k: int|
            0 <= k < s.len() && elapsed_between(#[trigger] s[k].last_access_ms, now) <= 2 * idle_ms
                implies r.contains(
                PoolEntryView { connections: kept_after_cleanup(s[k].connections, now, idle_ms), ..s[k] },
            ) by {
            let w = PoolEntryView { connections: kept_after_cleanup(s[k].connections, now, idle_ms), ..s[k] };
            if k < s.len() - 1 {
                assert(init[k] == s[k]);
                assert(elapsed_between(init[k].last_access_ms, now) <= 2 * idle_ms);
                assert(rest.contains(w));
                let i = choose|i: int| 0 <= i < rest.len() && rest[i] == w;
                if elapsed_between(e.last_access_ms, now) <= 2 * idle_ms {
                    assert(r[i] == rest[i]);
                }
            } else {
                assert(r[r.len() - 1] == w);
            }
        }
    }
}

/// The clean-up never removes a connection that is in use: for every client
/// whose entry it keeps (one accessed within twice the idle timeout), each of
/// its connections in use before the clean-up is still among that client's
/// connections after it, and the entry keeps its last access time.
pub proof fn law_cleanup_keeps_busy_connections(s: Seq<PoolEntryView>, now: u64, idle_ms: u64)
    ensures
        forall|k: int, j: int|
            #![trigger s[k].connections[j]]
            0 <= k < s.len() && elapsed_between(s[k].last_access_ms, now) <= 2 * idle_ms && 0 <= j
                < s[k].connections.len() && s[k].connections[j].in_use ==> exists|r: int|
                0 <= r < entries_after_cleanup(s, now, idle_ms).len()
                    && #[trigger] entries_after_cleanup(s, now, idle_ms)[r].client_id == s[k].client_id
                    && entries_after_cleanup(s, now, idle_ms)[r].last_access_ms == s[k].last_access_ms
                    && entries_after_cleanup(s, now, idle_ms)[r].connections.contains(s[k].connections[j]),
{
    lemma_entries_after_cleanup(s, now, idle_ms);
    let out = entries_after_cleanup(s, now, idle_ms);
    assert forall|k: int, j: int|
        #![trigger s[k].connections[j]]
        0 <= k < s.len() && elapsed_between(s[k].last_access_ms, now) <= 2 * idle_ms && 0 <= j
            < s[k].connections.len() && s[k].connections[j].in_use implies exists|r: int|
            0 <= r < out.len() && #[trigger] out[r].client_id == s[k].client_id && out[r].last_access_ms
                == s[k].last_access_ms && out[r].connections.contains(s[k].connections[j]) by {
        let w = PoolEntryView { connections: kept_after_cleanup(s[k].connections, now, idle_ms), ..s[k] };
        assert(out.contains(w));
        let r = choose|r: int| 0 <= r < out.len() && out[r] == w;
        law_cleanup_connections(s[k].connections, now, idle_ms);
        assert(w.connections.contains(s[k].connections[j]));
        assert(out[r].client_id == s[k].client_id);
    }
}

fn keep_connections(conns: Vec<TransferConnection>, now: u64, idle_ms: u64) -> (r: Vec<TransferConnection>)
    ensures
        r@ == kept_after_cleanup(conns@, now, idle_ms),
{
    let mut out: Vec<TransferConnection> = Vec::new();
    let mut j: usize = 0;
    while j < conns.len()
        invariant
            j <= conns@.len(),
            out@ == kept_after_cleanup(conns@.take(j as int), now, idle_ms),
        decreases conns@.len() - j,
    {
        proof {
            assert(conns@.take(j + 1).drop_last() =~= conns@.take(j as int));
        }
        let c = conns[j];
        if c.in_use || elapsed_ms(c.last_used_ms, now) > idle_ms {
            out.push(c);
        }
        j = j + 1;
    }
    proof {
        assert(conns@.take(conns@.len() as int) =~= conns@);
    }
    out
}

} // verus!
