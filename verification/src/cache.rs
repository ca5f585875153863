//! The TTL cache: low-latency lookup of entity snapshots with bounded
//! staleness.
//!
//! Each entry pairs a key — derived from the entity kind and identity, so
//! guild keys and member keys can never collide — with a snapshot of the
//! entity and an absolute expiry instant. A read at time `now` sees an
//! entry only while `now` is before its expiry; an expired entry behaves as
//! absent and is purged lazily by the read that finds it. Writes overwrite
//! unconditionally; deletes are idempotent.
//!
//! An unavailable cache fails every operation with
//! `CacheError::Unavailable` and changes nothing; the coherence layer
//! absorbs such failures and degrades to store-only operation.

use vstd::prelude::*;

use crate::errors::CacheError;
use crate::models::Guild;
use crate::models::User;

verus! {

/// Seconds a cached guild snapshot stays live.
pub const GUILD_TTL_SECS: u64 = 10;

/// Seconds a cached member snapshot stays live.
pub const USER_TTL_SECS: u64 = 10;

/// A cache key, derived from entity kind and identity.
#[derive(Clone, Copy, Debug, PartialEq, Eq, Structural)]
pub enum CacheKey {
    /// The guild row keyed by this guild id.
    Guild(i64),
    /// The member row keyed by this (guild id, user id) pair.
    Member(i64, i64),
}

/// A snapshot of one entity, as stored in the cache.
#[derive(Debug)]
pub enum Snapshot {
    Guild(Guild),
    User(User),
}

impl Clone for Snapshot {
    fn clone(&self) -> (r: Self)
        ensures
            r == *self,
    {
        match self {
            Snapshot::Guild(g) => Snapshot::Guild(g.clone()),
            Snapshot::User(u) => Snapshot::User(*u),
        }
    }
}

/// One cache entry: a snapshot under its key, live until `expires_at`.
#[derive(Debug)]
pub struct CacheEntry {
    pub key: CacheKey,
    pub snap: Snapshot,
    /// Absolute expiry instant; the entry is live at `now` iff `now < expires_at`.
    pub expires_at: u64,
}

/// The key names the identity that the snapshot carries, and the snapshot
/// satisfies the entity invariants (non-empty prefix, non-negative XP).
pub open spec fn entry_wf(e: CacheEntry) -> bool {
    match e.key {
        CacheKey::Guild(gid) => e.snap matches Snapshot::Guild(g) && g.guild_id == gid
            && g.prefix@.len() > 0,
        CacheKey::Member(gid, uid) => e.snap matches Snapshot::User(u) && u.guild_id == gid
            && u.user_id == uid && u.xp >= 0,
    }
}

/// Some entry in `es` carries key `k`.
pub open spec fn cache_has(es: Seq<CacheEntry>, k: CacheKey) -> bool {
    exists|i: int| 0 <= i < es.len() && es[i].key == k
}

/// The index of the entry under `k` (unique when `keys_unique`).
pub open spec fn cache_ix(es: Seq<CacheEntry>, k: CacheKey) -> int {
    choose|i: int| 0 <= i < es.len() && es[i].key == k
}

/// The entry stored under `k`, if any.
pub open spec fn cache_lookup(es: Seq<CacheEntry>, k: CacheKey) -> Option<CacheEntry> {
    if cache_has(es, k) {
        Some(es[cache_ix(es, k)])
    } else {
        None
    }
}

/// The snapshot stored under `k` and still live at `now`, if any.
pub open spec fn cache_live(es: Seq<CacheEntry>, k: CacheKey, now: u64) -> Option<Snapshot> {
    match cache_lookup(es, k) {
        Some(e) => if now < e.expires_at {
            Some(e.snap)
        } else {
            None
        },
        None => None,
    }
}

/// What a read of `k` at `now` leaves stored under `k`: a live entry is
/// kept, an expired or absent one leaves nothing (lazy purge).
pub open spec fn lookup_after_get(pre: Seq<CacheEntry>, k: CacheKey, now: u64) -> Option<
    CacheEntry,
> {
    if cache_live(pre, k, now) is Some {
        cache_lookup(pre, k)
    } else {
        None
    }
}

/// No two entries carry the same key.
pub open spec fn keys_unique(es: Seq<CacheEntry>) -> bool {
    forall|i: int, j: int|
        0 <= i < es.len() && 0 <= j < es.len() && i != j
            ==> (#[trigger] es[i]).key != (#[trigger] es[j]).key
}

/// Every key other than `k` resolves to the same entry before and after.
pub open spec fn same_except(pre: Seq<CacheEntry>, post: Seq<CacheEntry>, k: CacheKey) -> bool {
    forall|k2: CacheKey| k2 != k ==> #[trigger] cache_lookup(post, k2) == cache_lookup(pre, k2)
}

/// Under uniqueness, an index holding `k` is the index `cache_ix` picks.
pub proof fn lemma_cache_ix_is(es: Seq<CacheEntry>, k: CacheKey, i: int)
    requires
        keys_unique(es),
        0 <= i < es.len(),
        es[i].key == k,
    ensures
        cache_has(es, k),
        cache_ix(es, k) == i,
{
    assert(cache_has(es, k));
    let j = cache_ix(es, k);
    assert(0 <= j < es.len() && es[j].key == k);
}

/// Removing the entry at `i` erases exactly its key: the key resolves to
/// nothing afterwards, every other key resolves as before, and uniqueness
/// and entry well-formedness carry over.
pub proof fn lemma_remove_entry(es: Seq<CacheEntry>, i: int)
    requires
        keys_unique(es),
        0 <= i < es.len(),
        forall|j: int| 0 <= j < es.len() ==> entry_wf(#[trigger] es[j]),
    ensures
        keys_unique(es.remove(i)),
        forall|j: int| 0 <= j < es.remove(i).len() ==> entry_wf(#[trigger] es.remove(i)[j]),
        !cache_has(es.remove(i), es[i].key),
        same_except(es, es.remove(i), es[i].key),
{
    let es2 = es.remove(i);
    es.remove_ensures(i);
    assert forall|j: int| 0 <= j < es2.len() implies entry_wf(#[trigger] es2[j]) by {
        if j < i {
            assert(es2[j] == es[j]);
        } else {
            assert(es2[j] == es[j + 1]);
        }
    }
    assert forall|a: int, b: int|
        0 <= a < es2.len() && 0 <= b < es2.len() && a != b implies (#[trigger] es2[a]).key != (
    #[trigger] es2[b]).key by {
        let a0 = if a < i { a } else { a + 1 };
        let b0 = if b < i { b } else { b + 1 };
        assert(es2[a] == es[a0]);
        assert(es2[b] == es[b0]);
    }
    assert forall|j: int| 0 <= j < es2.len() implies (#[trigger] es2[j]).key != es[i].key by {
        let j0 = if j < i { j } else { j + 1 };
        assert(es2[j] == es[j0]);
    }
    assert forall|k2: CacheKey| k2 != es[i].key implies #[trigger] cache_lookup(es2, k2)
        == cache_lookup(es, k2) by {
        if cache_has(es, k2) {
            let j0 = cache_ix(es, k2);
            assert(0 <= j0 < es.len() && es[j0].key == k2);
            let j2 = if j0 < i { j0 } else { j0 - 1 };
            assert(es2[j2] == es[j0]);
            lemma_cache_ix_is(es2, k2, j2);
            lemma_cache_ix_is(es, k2, j0);
        } else {
            if cache_has(es2, k2) {
                let j2 = cache_ix(es2, k2);
                let j0 = if j2 < i { j2 } else { j2 + 1 };
                assert(es2[j2] == es[j0]);
                assert(cache_has(es, k2));
            }
        }
    }
}

/// A key/value cache of entity snapshots with per-entry expiry.
pub struct TtlCache {
    /// The entries; at most one per key.
    pub entries: Vec<CacheEntry>,
    /// Whether the cache can be reached. When false every operation fails
    /// with `CacheError::Unavailable` and changes nothing.
    pub available: bool,
}

impl TtlCache {
    /// Well-formedness: unique keys, and each snapshot under the key that
    /// names it.
    pub open spec fn wf(&self) -> bool {
        &&& keys_unique(self.entries@)
        &&& forall|i: int| 0 <= i < self.entries@.len() ==> entry_wf(#[trigger] self.entries@[i])
    }

    /// An empty, reachable cache.
    pub fn new() -> (c: TtlCache)
        ensures
            c.wf(),
            c.entries@ =~= Seq::<CacheEntry>::empty(),
            c.available,
    {
        TtlCache { entries: Vec::new(), available: true }
    }

    /// Remove the entry under `key`, if any; idempotent.
    fn remove_key(&mut self, key: CacheKey) -> (r: Result<(), CacheError>)
        requires
            old(self).wf(),
        ensures
            final(self).wf(),
            final(self).available == old(self).available,
            !old(self).available ==> r == Err::<(), CacheError>(CacheError::Unavailable)
                && final(self).entries@ == old(self).entries@,
            old(self).available ==> {
                &&& r == Ok::<(), CacheError>(())
                &&& cache_lookup(final(self).entries@, key) == None::<CacheEntry>
                &&& same_except(old(self).entries@, final(self).entries@, key)
            },
    {
        if !self.available {
            return Err(CacheError::Unavailable);
        }
        match find_key(&self.entries, key) {
            Some(i) => {
                proof {
                    lemma_remove_entry(self.entries@, i as int);
                }
                self.entries.remove(i);
            },
            None => {},
        }
        Ok(())
    }

    /// Store `snap` under `key`, overwriting any previous entry; the new
    /// entry expires at `now + ttl`.
    fn put_snapshot(&mut self, key: CacheKey, snap: Snapshot, ttl: u64, now: u64) -> (r: Result<
        (),
        CacheError,
    >)
        requires
            old(self).wf(),
            entry_wf(CacheEntry { key, snap, expires_at: 0 }),
            now + ttl <= u64::MAX,
        ensures
            final(self).wf(),
            final(self).available == old(self).available,
            !old(self).available ==> r == Err::<(), CacheError>(CacheError::Unavailable)
                && final(self).entries@ == old(self).entries@,
            old(self).available ==> {
                &&& r == Ok::<(), CacheError>(())
                &&& cache_lookup(final(self).entries@, key) == Some(
                    CacheEntry { key, snap, expires_at: (now + ttl) as u64 },
                )
                &&& same_except(old(self).entries@, final(self).entries@, key)
            },
    {
        if !self.available {
            return Err(CacheError::Unavailable);
        }
        let entry = CacheEntry { key, snap, expires_at: now + ttl };
        match find_key(&self.entries, key) {
            Some(i) => {
                proof {
                    lemma_cache_ix_is(self.entries@, key, i as int);
                }
                self.entries.set(i, entry);
                proof {
                    let es = self.entries@;
                    let pre = old(self).entries@;
                    lemma_cache_ix_is(es, key, i as int);
                    assert forall|k2: CacheKey| k2 != key implies #[trigger] cache_lookup(es, k2)
                        == cache_lookup(pre, k2) by {
                        if cache_has(pre, k2) {
                            let j = cache_ix(pre, k2);
                            assert(es[j] == pre[j]);
                            lemma_cache_ix_is(es, k2, j);
                            lemma_cache_ix_is(pre, k2, j);
                        } else {
                            if cache_has(es, k2) {
                                let j = cache_ix(es, k2);
                                assert(pre[j].key == k2);
                            }
                        }
                    }
                }
            },
            None => {
                self.entries.push(entry);
                proof {
                    let es = self.entries@;
                    let pre = old(self).entries@;
                    lemma_cache_ix_is(es, key, es.len() - 1);
                    assert forall|k2: CacheKey| k2 != key implies #[trigger] cache_lookup(es, k2)
                        == cache_lookup(pre, k2) by {
                        if cache_has(pre, k2) {
                            let j = cache_ix(pre, k2);
                            assert(es[j] == pre[j]);
                            lemma_cache_ix_is(es, k2, j);
                            lemma_cache_ix_is(pre, k2, j);
                        } else {
                            if cache_has(es, k2) {
                                let j = cache_ix(es, k2);
                                assert(j < es.len() - 1);
                                assert(pre[j].key == k2);
                            }
                        }
                    }
                }
            },
        }
        Ok(())
    }

    /// Fetch the snapshot under `key` if it is live at `now`. An expired
    /// entry is treated as absent and purged.
    fn get_snapshot(&mut self, key: CacheKey, now: u64) -> (r: Result<Option<Snapshot>, CacheError>)
        requires
            old(self).wf(),
        ensures
            final(self).wf(),
            final(self).available == old(self).available,
            !old(self).available ==> r == Err::<Option<Snapshot>, CacheError>(
                CacheError::Unavailable,
            ) && final(self).entries@ == old(self).entries@,
            old(self).available ==> {
                &&& r == Ok::<Option<Snapshot>, CacheError>(
                    cache_live(old(self).entries@, key, now),
                )
                &&& same_except(old(self).entries@, final(self).entries@, key)
                &&& cache_lookup(final(self).entries@, key) == lookup_after_get(
                    old(self).entries@,
                    key,
                    now,
                )
            },
    {
        if !self.available {
            return Err(CacheError::Unavailable);
        }
        match find_key(&self.entries, key) {
            Some(i) => {
                proof {
                    lemma_cache_ix_is(self.entries@, key, i as int);
                }
                if now < self.entries[i].expires_at {
                    Ok(Some(self.entries[i].snap.clone()))
                } else {
                    proof {
                        lemma_remove_entry(self.entries@, i as int);
                    }
                    self.entries.remove(i);
                    Ok(None)
                }
            },
            None => Ok(None),
        }
    }

    /// Drop the cached guild snapshot for `guild_id`; idempotent.
    pub fn del_guild(&mut self, guild_id: i64) -> (r: Result<(), CacheError>)
        requires
            old(self).wf(),
        ensures
            final(self).wf(),
            final(self).available == old(self).available,
            !old(self).available ==> r == Err::<(), CacheError>(CacheError::Unavailable)
                && final(self).entries@ == old(self).entries@,
            old(self).available ==> {
                &&& r == Ok::<(), CacheError>(())
                &&& cache_lookup(final(self).entries@, CacheKey::Guild(guild_id))
                    == None::<CacheEntry>
                &&& same_except(old(self).entries@, final(self).entries@, CacheKey::Guild(guild_id))
            },
    {
        self.remove_key(CacheKey::Guild(guild_id))
    }

    /// Drop the cached member snapshot for the pair; idempotent.
    pub fn del_user(&mut self, guild_id: i64, user_id: i64) -> (r: Result<(), CacheError>)
        requires
            old(self).wf(),
        ensures
            final(self).wf(),
            final(self).available == old(self).available,
            !old(self).available ==> r == Err::<(), CacheError>(CacheError::Unavailable)
                && final(self).entries@ == old(self).entries@,
            old(self).available ==> {
                &&& r == Ok::<(), CacheError>(())
                &&& cache_lookup(final(self).entries@, CacheKey::Member(guild_id, user_id))
                    == None::<CacheEntry>
                &&& same_except(
                    old(self).entries@,
                    final(self).entries@,
                    CacheKey::Member(guild_id, user_id),
                )
            },
    {
        self.remove_key(CacheKey::Member(guild_id, user_id))
    }

    /// Cache `g` under its guild key for `GUILD_TTL_SECS` from `now`.
    pub fn set_guild(&mut self, g: &Guild, now: u64) -> (r: Result<(), CacheError>)
        requires
            old(self).wf(),
            g.prefix@.len() > 0,
            now + GUILD_TTL_SECS <= u64::MAX,
        ensures
            final(self).wf(),
            final(self).available == old(self).available,
            !old(self).available ==> r == Err::<(), CacheError>(CacheError::Unavailable)
                && final(self).entries@ == old(self).entries@,
            old(self).available ==> {
                &&& r == Ok::<(), CacheError>(())
                &&& cache_lookup(final(self).entries@, CacheKey::Guild(g.guild_id)) == Some(
                    CacheEntry {
                        key: CacheKey::Guild(g.guild_id),
                        snap: Snapshot::Guild(*g),
                        expires_at: (now + GUILD_TTL_SECS) as u64,
                    },
                )
                &&& same_except(
                    old(self).entries@,
                    final(self).entries@,
                    CacheKey::Guild(g.guild_id),
                )
            },
    {
        self.put_snapshot(CacheKey::Guild(g.guild_id), Snapshot::Guild(g.clone()), GUILD_TTL_SECS, now)
    }

    /// Cache `u` under its member key for `USER_TTL_SECS` from `now`.
    pub fn set_user(&mut self, u: &User, now: u64) -> (r: Result<(), CacheError>)
        requires
            old(self).wf(),
            u.xp >= 0,
            now + USER_TTL_SECS <= u64::MAX,
        ensures
            final(self).wf(),
            final(self).available == old(self).available,
            !old(self).available ==> r == Err::<(), CacheError>(CacheError::Unavailable)
                && final(self).entries@ == old(self).entries@,
            old(self).available ==> {
                &&& r == Ok::<(), CacheError>(())
                &&& cache_lookup(final(self).entries@, CacheKey::Member(u.guild_id, u.user_id))
                    == Some(
                    CacheEntry {
                        key: CacheKey::Member(u.guild_id, u.user_id),
                        snap: Snapshot::User(*u),
                        expires_at: (now + USER_TTL_SECS) as u64,
                    },
                )
                &&& same_except(
                    old(self).entries@,
                    final(self).entries@,
                    CacheKey::Member(u.guild_id, u.user_id),
                )
            },
    {
        self.put_snapshot(CacheKey::Member(u.guild_id, u.user_id), Snapshot::User(*u), USER_TTL_SECS, now)
    }

    /// Fetch the guild snapshot for `guild_id` if live at `now`; an
    /// expired entry behaves as absent and is purged.
    pub fn get_guild(&mut self, guild_id: i64, now: u64) -> (r: Result<Option<Guild>, CacheError>)
        requires
            old(self).wf(),
        ensures
            final(self).wf(),
            final(self).available == old(self).available,
            !old(self).available ==> r == Err::<Option<Guild>, CacheError>(CacheError::Unavailable)
                && final(self).entries@ == old(self).entries@,
            old(self).available ==> {
                &&& r matches Ok(o)
                &&& (match cache_live(old(self).entries@, CacheKey::Guild(guild_id), now) {
                    Some(s) => s matches Snapshot::Guild(g) && o == Some(g),
                    None => o == None::<Guild>,
                })
                &&& same_except(
                    old(self).entries@,
                    final(self).entries@,
                    CacheKey::Guild(guild_id),
                )
                &&& cache_lookup(final(self).entries@, CacheKey::Guild(guild_id))
                    == lookup_after_get(old(self).entries@, CacheKey::Guild(guild_id), now)
            },
    {
        match self.get_snapshot(CacheKey::Guild(guild_id), now) {
            Ok(Some(Snapshot::Guild(g))) => Ok(Some(g)),
            Ok(_) => Ok(None),
            Err(e) => Err(e),
        }
    }

    /// Fetch the member snapshot for the pair if live at `now`; an expired
    /// entry behaves as absent and is purged.
    pub fn get_user(&mut self, guild_id: i64, user_id: i64, now: u64) -> (r: Result<
        Option<User>,
        CacheError,
    >)
        requires
            old(self).wf(),
        ensures
            final(self).wf(),
            final(self).available == old(self).available,
            !old(self).available ==> r == Err::<Option<User>, CacheError>(CacheError::Unavailable)
                && final(self).entries@ == old(self).entries@,
            old(self).available ==> {
                &&& r matches Ok(o)
                &&& (match cache_live(old(self).entries@, CacheKey::Member(guild_id, user_id), now) {
                    Some(s) => s matches Snapshot::User(u) && o == Some(u),
                    None => o == None::<User>,
                })
                &&& same_except(
                    old(self).entries@,
                    final(self).entries@,
                    CacheKey::Member(guild_id, user_id),
                )
                &&& cache_lookup(final(self).entries@, CacheKey::Member(guild_id, user_id))
                    == lookup_after_get(
                    old(self).entries@,
                    CacheKey::Member(guild_id, user_id),
                    now,
                )
            },
    {
        match self.get_snapshot(CacheKey::Member(guild_id, user_id), now) {
            Ok(Some(Snapshot::User(u))) => Ok(Some(u)),
            Ok(_) => Ok(None),
            Err(e) => Err(e),
        }
    }
}

/// Index of the entry under `key`, if any.
fn find_key(es: &Vec<CacheEntry>, key: CacheKey) -> (r: Option<usize>)
    ensures
        match r {
            Some(i) => 0 <= i < es@.len() && es@[i as int].key == key,
            None => !cache_has(es@, key),
        },
        r is Some <==> cache_has(es@, key),
{
    let mut i: usize = 0;
    while i < es.len()
        invariant
            0 <= i <= es@.len(),
            forall|j: int| 0 <= j < i ==> (#[trigger] es@[j]).key != key,
        decreases es@.len() - i,
    {
        if es[i].key == key {
            return Some(i);
        }
        i += 1;
    }
    None
}

} // verus!
