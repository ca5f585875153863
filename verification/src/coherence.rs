//! The coherence layer: the one component application logic talks to for
//! entity data. It fronts the entity store with the TTL cache, hides the
//! cache from callers, and guarantees the invalidation discipline:
//!
//! * **Read-through**: reads consult the cache first; on a live hit the
//!   store is not touched, on a miss the store answer repopulates the
//!   cache before it is returned (errors are never cached).
//! * **Invalidate-then-write-then-repopulate**: updating writes delete the
//!   cache entry, perform the store write, and write the fresh result
//!   back. A failed store write therefore leaves no stale entry behind:
//!   the next read re-fetches from the store.
//! * **Create-then-populate**: member creation inserts into the store and
//!   populates the cache only on success.
//! * **Degradation**: a cache failure never fails an entity operation; the
//!   layer silently falls back to store-only behaviour. Store errors
//!   surface verbatim.
//!
//! List and aggregate queries (`get_guild_users`, `top_n_guild_user_xp`)
//! bypass the cache: only single-entity lookups keyed by identity are
//! cached.

use vstd::prelude::*;

use crate::cache::CacheEntry;
use crate::cache::CacheKey;
use crate::cache::GUILD_TTL_SECS;
use crate::cache::Snapshot;
use crate::cache::TtlCache;
use crate::cache::USER_TTL_SECS;
use crate::cache::cache_has;
use crate::cache::cache_lookup;
use crate::cache::cache_live;
use crate::cache::same_except;
use crate::cooldown::CooldownTracker;
use crate::cooldown::mark_rows;
use crate::cooldown::cd_entry;
use crate::cooldown::cd_has;
use crate::cooldown::on_cooldown;
use crate::errors::DataError;
use crate::models::Guild;
use crate::models::User;
use crate::store::EntityStore;
use crate::store::add_user_xp_rows;
use crate::store::guild_of;
use crate::store::has_guild;
use crate::store::has_user;
use crate::store::set_user_xp_rows;
use crate::store::top_n_users;
use crate::store::upsert_guild_prefix;
use crate::store::lemma_user_ix_is;
use crate::store::user_of;
use crate::store::user_xp_or_zero;
use crate::store::users_of_guild;
use crate::store::users_unique;
use crate::xp::MAX_LEVEL_XP;
use crate::xp::spec_xp_to_lvl;
use crate::xp::xp_to_lvl;

verus! {

/// The guild snapshot live in the cache under `guild_id` at `now`, if any.
pub open spec fn guild_cache_hit(ces: Seq<CacheEntry>, guild_id: i64, now: u64) -> Option<Guild> {
    match cache_live(ces, CacheKey::Guild(guild_id), now) {
        Some(Snapshot::Guild(g)) => Some(g),
        _ => None,
    }
}

/// The member snapshot live in the cache under the pair at `now`, if any.
pub open spec fn user_cache_hit(
    ces: Seq<CacheEntry>,
    guild_id: i64,
    user_id: i64,
    now: u64,
) -> Option<User> {
    match cache_live(ces, CacheKey::Member(guild_id, user_id), now) {
        Some(Snapshot::User(u)) => Some(u),
        _ => None,
    }
}

/// What a read-through guild read returns, given the cache and store
/// state and their availability: the live cached snapshot if the cache
/// answers, else the store row, else the store's error.
pub open spec fn guild_read_out(
    ces: Seq<CacheEntry>,
    cache_up: bool,
    gs: Seq<Guild>,
    store_up: bool,
    guild_id: i64,
    now: u64,
) -> Result<Guild, DataError> {
    match (if cache_up {
        guild_cache_hit(ces, guild_id, now)
    } else {
        None
    }) {
        Some(g) => Ok(g),
        None => if !store_up {
            Err(DataError::StoreUnavailable)
        } else if has_guild(gs, guild_id) {
            Ok(guild_of(gs, guild_id))
        } else {
            Err(DataError::NotFound)
        },
    }
}

/// What a read-through member read returns.
pub open spec fn user_read_out(
    ces: Seq<CacheEntry>,
    cache_up: bool,
    us: Seq<User>,
    store_up: bool,
    user_id: i64,
    guild_id: i64,
    now: u64,
) -> Result<User, DataError> {
    match (if cache_up {
        user_cache_hit(ces, guild_id, user_id, now)
    } else {
        None
    }) {
        Some(u) => Ok(u),
        None => if !store_up {
            Err(DataError::StoreUnavailable)
        } else if has_user(us, user_id, guild_id) {
            Ok(user_of(us, user_id, guild_id))
        } else {
            Err(DataError::NotFound)
        },
    }
}

/// What a read-through guild read leaves stored under the guild key: a
/// live hit is kept, a successful store fetch is cached fresh, an error
/// caches nothing, an unreachable cache stays as it was.
pub open spec fn guild_read_cache_after(
    ces: Seq<CacheEntry>,
    cache_up: bool,
    gs: Seq<Guild>,
    store_up: bool,
    guild_id: i64,
    now: u64,
) -> Option<CacheEntry> {
    if !cache_up {
        cache_lookup(ces, CacheKey::Guild(guild_id))
    } else if guild_cache_hit(ces, guild_id, now) is Some {
        cache_lookup(ces, CacheKey::Guild(guild_id))
    } else if store_up && has_guild(gs, guild_id) {
        Some(
            CacheEntry {
                key: CacheKey::Guild(guild_id),
                snap: Snapshot::Guild(guild_of(gs, guild_id)),
                expires_at: (now + GUILD_TTL_SECS) as u64,
            },
        )
    } else {
        None
    }
}

/// What a read-through member read leaves stored under the member key.
pub open spec fn user_read_cache_after(
    ces: Seq<CacheEntry>,
    cache_up: bool,
    us: Seq<User>,
    store_up: bool,
    user_id: i64,
    guild_id: i64,
    now: u64,
) -> Option<CacheEntry> {
    if !cache_up {
        cache_lookup(ces, CacheKey::Member(guild_id, user_id))
    } else if user_cache_hit(ces, guild_id, user_id, now) is Some {
        cache_lookup(ces, CacheKey::Member(guild_id, user_id))
    } else if store_up && has_user(us, user_id, guild_id) {
        Some(
            CacheEntry {
                key: CacheKey::Member(guild_id, user_id),
                snap: Snapshot::User(user_of(us, user_id, guild_id)),
                expires_at: (now + USER_TTL_SECS) as u64,
            },
        )
    } else {
        None
    }
}

/// The entity store fronted by the TTL cache.
pub struct Database {
    pub store: EntityStore,
    pub cache: TtlCache,
}

impl Database {
    /// Both components well-formed.
    pub open spec fn wf(&self) -> bool {
        &&& self.store.wf()
        &&& self.cache.wf()
    }

    /// An empty database: empty reachable store, empty reachable cache.
    pub fn new() -> (db: Database)
        ensures
            db.wf(),
            db.store.guilds@ =~= Seq::<Guild>::empty(),
            db.store.users@ =~= Seq::<User>::empty(),
            db.cache.entries@ =~= Seq::<CacheEntry>::empty(),
            db.store.available,
            db.cache.available,
    {
        Database { store: EntityStore::new(), cache: TtlCache::new() }
    }

    /// Read-through guild read: the live cached snapshot if the cache
    /// answers, else the store row (cached fresh before returning), else
    /// the store's error, which is never cached.
    pub fn get_guild(&mut self, guild_id: i64, now: u64) -> (r: Result<Guild, DataError>)
        requires
            old(self).wf(),
            now + GUILD_TTL_SECS <= u64::MAX,
        ensures
            final(self).wf(),
            final(self).store.guilds@ == old(self).store.guilds@,
            final(self).store.users@ == old(self).store.users@,
            final(self).store.available == old(self).store.available,
            final(self).cache.available == old(self).cache.available,
            r == guild_read_out(
                old(self).cache.entries@,
                old(self).cache.available,
                old(self).store.guilds@,
                old(self).store.available,
                guild_id,
                now,
            ),
            same_except(old(self).cache.entries@, final(self).cache.entries@, CacheKey::Guild(guild_id)),
            cache_lookup(final(self).cache.entries@, CacheKey::Guild(guild_id))
                == guild_read_cache_after(
                old(self).cache.entries@,
                old(self).cache.available,
                old(self).store.guilds@,
                old(self).store.available,
                guild_id,
                now,
            ),
    {
        let cached: Option<Guild> = match self.cache.get_guild(guild_id, now) {
            Ok(o) => o,
            Err(_) => None,
        };
        if let Some(g) = cached {
            return Ok(g);
        }
        match self.store.get_guild(guild_id) {
            Ok(g) => {
                let _ = self.cache.set_guild(&g, now);
                Ok(g)
            },
            Err(e) => Err(e),
        }
    }

    /// Read-through guild read returning only the command prefix.
    pub fn get_guild_prefix(&mut self, guild_id: i64, now: u64) -> (r: Result<String, DataError>)
        requires
            old(self).wf(),
            now + GUILD_TTL_SECS <= u64::MAX,
        ensures
            final(self).wf(),
            final(self).store.guilds@ == old(self).store.guilds@,
            final(self).store.users@ == old(self).store.users@,
            final(self).store.available == old(self).store.available,
            final(self).cache.available == old(self).cache.available,
            (match guild_read_out(
                old(self).cache.entries@,
                old(self).cache.available,
                old(self).store.guilds@,
                old(self).store.available,
                guild_id,
                now,
            ) {
                Ok(g) => r matches Ok(p) && p == g.prefix,
                Err(e) => r == Err::<String, DataError>(e),
            }),
            same_except(old(self).cache.entries@, final(self).cache.entries@, CacheKey::Guild(guild_id)),
            cache_lookup(final(self).cache.entries@, CacheKey::Guild(guild_id))
                == guild_read_cache_after(
                old(self).cache.entries@,
                old(self).cache.available,
                old(self).store.guilds@,
                old(self).store.available,
                guild_id,
                now,
            ),
    {
        match self.get_guild(guild_id, now) {
            Ok(g) => Ok(g.prefix),
            Err(e) => Err(e),
        }
    }

    /// Read-through member read.
    pub fn get_guild_user(&mut self, user_id: i64, guild_id: i64, now: u64) -> (r: Result<
        User,
        DataError,
    >)
        requires
            old(self).wf(),
            now + USER_TTL_SECS <= u64::MAX,
        ensures
            final(self).wf(),
            final(self).store.guilds@ == old(self).store.guilds@,
            final(self).store.users@ == old(self).store.users@,
            final(self).store.available == old(self).store.available,
            final(self).cache.available == old(self).cache.available,
            r == user_read_out(
                old(self).cache.entries@,
                old(self).cache.available,
                old(self).store.users@,
                old(self).store.available,
                user_id,
                guild_id,
                now,
            ),
            same_except(
                old(self).cache.entries@,
                final(self).cache.entries@,
                CacheKey::Member(guild_id, user_id),
            ),
            cache_lookup(final(self).cache.entries@, CacheKey::Member(guild_id, user_id))
                == user_read_cache_after(
                old(self).cache.entries@,
                old(self).cache.available,
                old(self).store.users@,
                old(self).store.available,
                user_id,
                guild_id,
                now,
            ),
    {
        let cached: Option<User> = match self.cache.get_user(guild_id, user_id, now) {
            Ok(o) => o,
            Err(_) => None,
        };
        if let Some(u) = cached {
            return Ok(u);
        }
        match self.store.get_guild_user(user_id, guild_id) {
            Ok(u) => {
                let _ = self.cache.set_user(&u, now);
                Ok(u)
            },
            Err(e) => Err(e),
        }
    }

    /// Create a guild row with the default prefix. The cache is not
    /// consulted or populated: the row is cached on first read.
    pub fn create_guild(&mut self, guild_id: i64) -> (r: Result<Guild, DataError>)
        requires
            old(self).wf(),
            old(self).store.guilds@.len() < i32::MAX,
        ensures
            final(self).wf(),
            final(self).cache.entries@ == old(self).cache.entries@,
            final(self).cache.available == old(self).cache.available,
            final(self).store.available == old(self).store.available,
            final(self).store.users@ == old(self).store.users@,
            !old(self).store.available ==> r == Err::<Guild, DataError>(DataError::StoreUnavailable)
                && final(self).store.guilds@ == old(self).store.guilds@,
            old(self).store.available && has_guild(old(self).store.guilds@, guild_id)
                ==> r == Err::<Guild, DataError>(DataError::Conflict)
                && final(self).store.guilds@ == old(self).store.guilds@,
            old(self).store.available && !has_guild(old(self).store.guilds@, guild_id) ==> {
                &&& r matches Ok(g)
                &&& g.id == old(self).store.guilds@.len() + 1
                &&& g.guild_id == guild_id
                &&& g.prefix@ == "~"@
                &&& final(self).store.guilds@ == old(self).store.guilds@.push(g)
            },
    {
        self.store.create_guild(guild_id)
    }

    /// Create-then-populate: insert a member row with zero XP; on success
    /// cache the fresh snapshot, on `Conflict` leave the cache untouched.
    pub fn create_guild_user(&mut self, user_id: i64, guild_id: i64, now: u64) -> (r: Result<
        User,
        DataError,
    >)
        requires
            old(self).wf(),
            old(self).store.users@.len() < i32::MAX,
            now + USER_TTL_SECS <= u64::MAX,
        ensures
            final(self).wf(),
            final(self).store.guilds@ == old(self).store.guilds@,
            final(self).store.available == old(self).store.available,
            final(self).cache.available == old(self).cache.available,
            !old(self).store.available ==> r == Err::<User, DataError>(DataError::StoreUnavailable)
                && final(self).store.users@ == old(self).store.users@
                && final(self).cache.entries@ == old(self).cache.entries@,
            old(self).store.available && has_user(old(self).store.users@, user_id, guild_id)
                ==> r == Err::<User, DataError>(DataError::Conflict)
                && final(self).store.users@ == old(self).store.users@
                && final(self).cache.entries@ == old(self).cache.entries@,
            old(self).store.available && !has_user(old(self).store.users@, user_id, guild_id)
                ==> {
                &&& r matches Ok(u)
                &&& u == (User {
                    id: (old(self).store.users@.len() + 1) as i32,
                    user_id,
                    guild_id,
                    xp: 0,
                    blocked: false,
                })
                &&& final(self).store.users@ == old(self).store.users@.push(u)
                &&& same_except(
                    old(self).cache.entries@,
                    final(self).cache.entries@,
                    CacheKey::Member(guild_id, user_id),
                )
                &&& old(self).cache.available ==> cache_lookup(
                    final(self).cache.entries@,
                    CacheKey::Member(guild_id, user_id),
                ) == Some(
                    CacheEntry {
                        key: CacheKey::Member(guild_id, user_id),
                        snap: Snapshot::User(u),
                        expires_at: (now + USER_TTL_SECS) as u64,
                    },
                )
                &&& !old(self).cache.available ==> final(self).cache.entries@ == old(
                    self,
                ).cache.entries@
            },
    {
        self.create_guild_user_with_xp(user_id, guild_id, 0, now)
    }

    /// Create-then-populate: insert a member row with the given XP; on
    /// success cache the fresh snapshot, on `Conflict` leave the cache
    /// untouched.
    pub fn create_guild_user_with_xp(
        &mut self,
        user_id: i64,
        guild_id: i64,
        xp: i32,
        now: u64,
    ) -> (r: Result<User, DataError>)
        requires
            old(self).wf(),
            old(self).store.users@.len() < i32::MAX,
            xp >= 0,
            now + USER_TTL_SECS <= u64::MAX,
        ensures
            final(self).wf(),
            final(self).store.guilds@ == old(self).store.guilds@,
            final(self).store.available == old(self).store.available,
            final(self).cache.available == old(self).cache.available,
            !old(self).store.available ==> r == Err::<User, DataError>(DataError::StoreUnavailable)
                && final(self).store.users@ == old(self).store.users@
                && final(self).cache.entries@ == old(self).cache.entries@,
            old(self).store.available && has_user(old(self).store.users@, user_id, guild_id)
                ==> r == Err::<User, DataError>(DataError::Conflict)
                && final(self).store.users@ == old(self).store.users@
                && final(self).cache.entries@ == old(self).cache.entries@,
            old(self).store.available && !has_user(old(self).store.users@, user_id, guild_id)
                ==> {
                &&& r matches Ok(u)
                &&& u == (User {
                    id: (old(self).store.users@.len() + 1) as i32,
                    user_id,
                    guild_id,
                    xp,
                    blocked: false,
                })
                &&& final(self).store.users@ == old(self).store.users@.push(u)
                &&& same_except(
                    old(self).cache.entries@,
                    final(self).cache.entries@,
                    CacheKey::Member(guild_id, user_id),
                )
                &&& old(self).cache.available ==> cache_lookup(
                    final(self).cache.entries@,
                    CacheKey::Member(guild_id, user_id),
                ) == Some(
                    CacheEntry {
                        key: CacheKey::Member(guild_id, user_id),
                        snap: Snapshot::User(u),
                        expires_at: (now + USER_TTL_SECS) as u64,
                    },
                )
                &&& !old(self).cache.available ==> final(self).cache.entries@ == old(
                    self,
                ).cache.entries@
            },
    {
        match self.store.create_guild_user_with_xp(user_id, guild_id, xp) {
            Ok(u) => {
                let _ = self.cache.set_user(&u, now);
                Ok(u)
            },
            Err(e) => Err(e),
        }
    }

    /// Invalidate-then-write-then-repopulate: delete the cached member
    /// snapshot, set the row's XP in the store (pure update), and cache
    /// the fresh row. If the store write fails, the member key stays
    /// empty: the next read re-fetches from the store.
    pub fn set_guild_user_xp(&mut self, user_id: i64, guild_id: i64, xp: i32, now: u64) -> (r:
        Result<User, DataError>)
        requires
            old(self).wf(),
            xp >= 0,
            now + USER_TTL_SECS <= u64::MAX,
        ensures
            final(self).wf(),
            final(self).store.guilds@ == old(self).store.guilds@,
            final(self).store.available == old(self).store.available,
            final(self).cache.available == old(self).cache.available,
            same_except(
                old(self).cache.entries@,
                final(self).cache.entries@,
                CacheKey::Member(guild_id, user_id),
            ),
            !old(self).cache.available ==> final(self).cache.entries@ == old(self).cache.entries@,
            !old(self).store.available ==> {
                &&& r == Err::<User, DataError>(DataError::StoreUnavailable)
                &&& final(self).store.users@ == old(self).store.users@
                &&& old(self).cache.available ==> cache_lookup(
                    final(self).cache.entries@,
                    CacheKey::Member(guild_id, user_id),
                ) == None::<CacheEntry>
            },
            old(self).store.available && !has_user(old(self).store.users@, user_id, guild_id)
                ==> {
                &&& r == Err::<User, DataError>(DataError::NotFound)
                &&& final(self).store.users@ == old(self).store.users@
                &&& old(self).cache.available ==> cache_lookup(
                    final(self).cache.entries@,
                    CacheKey::Member(guild_id, user_id),
                ) == None::<CacheEntry>
            },
            old(self).store.available && has_user(old(self).store.users@, user_id, guild_id)
                ==> {
                &&& final(self).store.users@ == set_user_xp_rows(
                    old(self).store.users@,
                    user_id,
                    guild_id,
                    xp,
                )
                &&& r matches Ok(u)
                &&& u == (User {
                    id: user_of(old(self).store.users@, user_id, guild_id).id,
                    user_id,
                    guild_id,
                    xp,
                    blocked: user_of(old(self).store.users@, user_id, guild_id).blocked,
                })
                &&& has_user(final(self).store.users@, user_id, guild_id)
                &&& user_of(final(self).store.users@, user_id, guild_id) == u
                &&& old(self).cache.available ==> cache_lookup(
                    final(self).cache.entries@,
                    CacheKey::Member(guild_id, user_id),
                ) == Some(
                    CacheEntry {
                        key: CacheKey::Member(guild_id, user_id),
                        snap: Snapshot::User(u),
                        expires_at: (now + USER_TTL_SECS) as u64,
                    },
                )
            },
    {
        let _ = self.cache.del_user(guild_id, user_id);
        match self.store.set_guild_user_xp(user_id, guild_id, xp) {
            Ok(u) => {
                let _ = self.cache.set_user(&u, now);
                Ok(u)
            },
            Err(e) => Err(e),
        }
    }

    /// Invalidate-then-write-then-repopulate around the store's atomic
    /// upsert-with-increment.
    pub fn add_guild_user_xp(&mut self, user_id: i64, guild_id: i64, delta: i32, now: u64) -> (r:
        Result<User, DataError>)
        requires
            old(self).wf(),
            delta >= 0,
            user_xp_or_zero(old(self).store.users@, user_id, guild_id) + delta <= i32::MAX,
            old(self).store.users@.len() < i32::MAX,
            now + USER_TTL_SECS <= u64::MAX,
        ensures
            final(self).wf(),
            final(self).store.guilds@ == old(self).store.guilds@,
            final(self).store.available == old(self).store.available,
            final(self).cache.available == old(self).cache.available,
            same_except(
                old(self).cache.entries@,
                final(self).cache.entries@,
                CacheKey::Member(guild_id, user_id),
            ),
            !old(self).cache.available ==> final(self).cache.entries@ == old(self).cache.entries@,
            !old(self).store.available ==> {
                &&& r == Err::<User, DataError>(DataError::StoreUnavailable)
                &&& final(self).store.users@ == old(self).store.users@
                &&& old(self).cache.available ==> cache_lookup(
                    final(self).cache.entries@,
                    CacheKey::Member(guild_id, user_id),
                ) == None::<CacheEntry>
            },
            old(self).store.available ==> {
                &&& final(self).store.users@ == add_user_xp_rows(
                    old(self).store.users@,
                    user_id,
                    guild_id,
                    delta,
                )
                &&& r matches Ok(u)
                &&& u.user_id == user_id
                &&& u.guild_id == guild_id
                &&& u.xp == user_xp_or_zero(old(self).store.users@, user_id, guild_id) + delta
                &&& has_user(final(self).store.users@, user_id, guild_id)
                &&& user_of(final(self).store.users@, user_id, guild_id) == u
                &&& old(self).cache.available ==> cache_lookup(
                    final(self).cache.entries@,
                    CacheKey::Member(guild_id, user_id),
                ) == Some(
                    CacheEntry {
                        key: CacheKey::Member(guild_id, user_id),
                        snap: Snapshot::User(u),
                        expires_at: (now + USER_TTL_SECS) as u64,
                    },
                )
            },
    {
        let _ = self.cache.del_user(guild_id, user_id);
        match self.store.add_guild_user_xp(user_id, guild_id, delta) {
            Ok(u) => {
                let _ = self.cache.set_user(&u, now);
                Ok(u)
            },
            Err(e) => Err(e),
        }
    }

    /// Invalidate-then-write-then-repopulate around the store's atomic
    /// prefix upsert.
    pub fn set_guild_prefix(&mut self, guild_id: i64, prefix: String, now: u64) -> (r: Result<
        Guild,
        DataError,
    >)
        requires
            old(self).wf(),
            old(self).store.guilds@.len() < i32::MAX,
            prefix@.len() > 0,
            now + GUILD_TTL_SECS <= u64::MAX,
        ensures
            final(self).wf(),
            final(self).store.users@ == old(self).store.users@,
            final(self).store.available == old(self).store.available,
            final(self).cache.available == old(self).cache.available,
            same_except(old(self).cache.entries@, final(self).cache.entries@, CacheKey::Guild(guild_id)),
            !old(self).cache.available ==> final(self).cache.entries@ == old(self).cache.entries@,
            !old(self).store.available ==> {
                &&& r == Err::<Guild, DataError>(DataError::StoreUnavailable)
                &&& final(self).store.guilds@ == old(self).store.guilds@
                &&& old(self).cache.available ==> cache_lookup(
                    final(self).cache.entries@,
                    CacheKey::Guild(guild_id),
                ) == None::<CacheEntry>
            },
            old(self).store.available ==> {
                &&& final(self).store.guilds@ == upsert_guild_prefix(
                    old(self).store.guilds@,
                    guild_id,
                    prefix,
                )
                &&& r matches Ok(g)
                &&& g.guild_id == guild_id
                &&& g.prefix == prefix
                &&& has_guild(final(self).store.guilds@, guild_id)
                &&& guild_of(final(self).store.guilds@, guild_id) == g
                &&& old(self).cache.available ==> cache_lookup(
                    final(self).cache.entries@,
                    CacheKey::Guild(guild_id),
                ) == Some(
                    CacheEntry {
                        key: CacheKey::Guild(guild_id),
                        snap: Snapshot::Guild(g),
                        expires_at: (now + GUILD_TTL_SECS) as u64,
                    },
                )
            },
    {
        let _ = self.cache.del_guild(guild_id);
        match self.store.set_guild_prefix(guild_id, prefix) {
            Ok(g) => {
                let _ = self.cache.set_guild(&g, now);
                Ok(g)
            },
            Err(e) => Err(e),
        }
    }

    /// All member rows of `guild_id`, straight from the store: list
    /// queries bypass the cache.
    pub fn get_guild_users(&self, guild_id: i64) -> (r: Result<Vec<User>, DataError>)
        requires
            self.wf(),
        ensures
            !self.store.available ==> r == Err::<Vec<User>, DataError>(DataError::StoreUnavailable),
            self.store.available ==> (r matches Ok(v) && v@ == users_of_guild(
                self.store.users@,
                guild_id,
            )),
    {
        self.store.get_guild_users(guild_id)
    }

    /// The guild's top `n` members by XP, straight from the store:
    /// aggregate queries bypass the cache.
    pub fn top_n_guild_user_xp(&self, guild_id: i64, n: i64) -> (r: Result<Vec<User>, DataError>)
        requires
            self.wf(),
            n >= 0,
        ensures
            !self.store.available ==> r == Err::<Vec<User>, DataError>(DataError::StoreUnavailable),
            self.store.available ==> (r matches Ok(v) && v@ == top_n_users(
                self.store.users@,
                guild_id,
                n as int,
            )),
    {
        self.store.top_n_guild_user_xp(guild_id, n)
    }
}

/// The outcome of handling one chat message for XP.
#[derive(Clone, Copy, Debug, PartialEq, Eq, Structural)]
pub enum XpGrantOutcome {
    /// The pair holds a live cooldown marker; nothing was written.
    OnCooldown,
    /// XP was granted: the fresh row and the levels before and after the
    /// grant, so the caller can announce a level-up when they differ.
    Granted { user: User, prev_level: i32, new_level: i32 },
    /// The cooldown was marked but the store write failed.
    Failed(DataError),
}

/// Handle one chat message: consult the cooldown tracker first (one
/// atomic check-and-mark, independent of the store), and only when the
/// pair is not on cooldown grant `xp_amount` through the coherence
/// layer's upsert-with-increment.
pub fn message_xp_grant(
    db: &mut Database,
    cooldown: &mut CooldownTracker,
    user_id: i64,
    guild_id: i64,
    xp_amount: i32,
    now: u64,
) -> (r: XpGrantOutcome)
    requires
        old(db).wf(),
        old(cooldown).wf(),
        xp_amount >= 0,
        user_xp_or_zero(old(db).store.users@, user_id, guild_id) + xp_amount <= MAX_LEVEL_XP,
        old(db).store.users@.len() < i32::MAX,
        now + USER_TTL_SECS <= u64::MAX,
    ensures
        final(db).wf(),
        final(cooldown).wf(),
        final(cooldown).window_secs == old(cooldown).window_secs,
        final(cooldown).capacity == old(cooldown).capacity,
        final(db).store.guilds@ == old(db).store.guilds@,
        final(db).store.available == old(db).store.available,
        final(db).cache.available == old(db).cache.available,
        (r is OnCooldown) == on_cooldown(
            old(cooldown).entries@,
            old(cooldown).window_secs,
            user_id,
            guild_id,
            now,
        ),
        r is OnCooldown ==> final(db).store.users@ == old(db).store.users@
            && final(db).cache.entries@ == old(db).cache.entries@
            && final(cooldown).entries@ == old(cooldown).entries@,
        !(r is OnCooldown) ==> {
            &&& final(cooldown).entries@ == mark_rows(
                old(cooldown).entries@,
                old(cooldown).capacity,
                user_id,
                guild_id,
                now,
            )
            &&& cd_has(final(cooldown).entries@, user_id, guild_id)
            &&& cd_entry(final(cooldown).entries@, user_id, guild_id).marked_at == now
            &&& same_except(
                old(db).cache.entries@,
                final(db).cache.entries@,
                CacheKey::Member(guild_id, user_id),
            )
        },
        !(r is OnCooldown) && old(db).store.available ==> {
            &&& final(db).store.users@ == add_user_xp_rows(
                old(db).store.users@,
                user_id,
                guild_id,
                xp_amount,
            )
            &&& r matches XpGrantOutcome::Granted { user, prev_level, new_level }
            &&& user == user_of(final(db).store.users@, user_id, guild_id)
            &&& user.xp == user_xp_or_zero(old(db).store.users@, user_id, guild_id) + xp_amount
            &&& prev_level == spec_xp_to_lvl(user.xp - xp_amount)
            &&& new_level == spec_xp_to_lvl(user.xp as int)
        },
        !(r is OnCooldown) && !old(db).store.available ==> {
            &&& r == XpGrantOutcome::Failed(DataError::StoreUnavailable)
            &&& final(db).store.users@ == old(db).store.users@
            &&& old(db).cache.available ==> cache_lookup(
                final(db).cache.entries@,
                CacheKey::Member(guild_id, user_id),
            ) == None::<CacheEntry>
        },
{
    if !cooldown.check_and_mark(user_id, guild_id, now) {
        return XpGrantOutcome::OnCooldown;
    }
    match db.add_guild_user_xp(user_id, guild_id, xp_amount, now) {
        Ok(saved) => {
            let prev_xp: i32 = saved.xp - xp_amount;
            let prev_level: i32 = xp_to_lvl(prev_xp);
            let new_level: i32 = xp_to_lvl(saved.xp);
            XpGrantOutcome::Granted { user: saved, prev_level, new_level }
        },
        Err(e) => XpGrantOutcome::Failed(e),
    }
}

/// A guild id never created — no store row, nothing cached under its key —
/// reads as `NotFound`, whatever the cache availability.
pub proof fn law_get_guild_unknown_not_found(
    ces: Seq<CacheEntry>,
    cache_up: bool,
    gs: Seq<Guild>,
    guild_id: i64,
    now: u64,
)
    requires
        !cache_has(ces, CacheKey::Guild(guild_id)),
        !has_guild(gs, guild_id),
    ensures
        guild_read_out(ces, cache_up, gs, true, guild_id, now) == Err::<Guild, DataError>(
            DataError::NotFound,
        ),
{
}

/// Granting XP twice accumulates: starting from no row for the pair, two
/// store-level upsert-with-increment transitions leave exactly one row for
/// the pair, holding `d1 + d2` XP. Because each transition is atomic at
/// the store, this holds under concurrent grants in either order.
pub proof fn law_xp_grants_accumulate(
    us: Seq<User>,
    user_id: i64,
    guild_id: i64,
    d1: i32,
    d2: i32,
)
    requires
        users_unique(us),
        !has_user(us, user_id, guild_id),
        0 <= d1,
        0 <= d2,
        d1 + d2 <= i32::MAX,
        us.len() < i32::MAX,
    ensures
        ({
            let us1 = add_user_xp_rows(us, user_id, guild_id, d1);
            let us2 = add_user_xp_rows(us1, user_id, guild_id, d2);
            &&& users_unique(us2)
            &&& us2.len() == us.len() + 1
            &&& has_user(us2, user_id, guild_id)
            &&& user_of(us2, user_id, guild_id).xp == d1 + d2
        }),
{
    let us1 = add_user_xp_rows(us, user_id, guild_id, d1);
    let row1 = User {
        id: (us.len() + 1) as i32,
        user_id,
        guild_id,
        xp: d1,
        blocked: false,
    };
    assert(us1 == us.push(row1));
    assert forall|a: int, b: int|
        0 <= a < us1.len() && 0 <= b < us1.len() && a != b implies ((#[trigger] us1[a]).user_id
        != (#[trigger] us1[b]).user_id || us1[a].guild_id != us1[b].guild_id) by {
        if a < us.len() && b < us.len() {
            assert(us1[a] == us[a]);
            assert(us1[b] == us[b]);
        }
    }
    lemma_user_ix_is(us1, user_id, guild_id, us.len() as int);
    let us2 = add_user_xp_rows(us1, user_id, guild_id, d2);
    let row2 = User {
        id: row1.id,
        user_id,
        guild_id,
        xp: (d1 + d2) as i32,
        blocked: false,
    };
    assert(us2 == us1.update(us.len() as int, row2));
    assert forall|a: int, b: int|
        0 <= a < us2.len() && 0 <= b < us2.len() && a != b implies ((#[trigger] us2[a]).user_id
        != (#[trigger] us2[b]).user_id || us2[a].guild_id != us2[b].guild_id) by {
        assert(us2[a].user_id == us1[a].user_id && us2[a].guild_id == us1[a].guild_id);
        assert(us2[b].user_id == us1[b].user_id && us2[b].guild_id == us1[b].guild_id);
    }
    lemma_user_ix_is(us2, user_id, guild_id, us.len() as int);
}

/// Any write through the coherence layer is observed by the very next
/// read through the layer: after a successful layer-mediated member write
/// — store row updated, member key holding the fresh snapshot or nothing —
/// a read at any later time and any cache availability returns the
/// written row.
pub proof fn law_write_then_read(
    ces1: Seq<CacheEntry>,
    cache_up2: bool,
    us1: Seq<User>,
    user_id: i64,
    guild_id: i64,
    u: User,
    now2: u64,
)
    requires
        has_user(us1, user_id, guild_id),
        user_of(us1, user_id, guild_id) == u,
        cache_lookup(ces1, CacheKey::Member(guild_id, user_id)) matches Some(e) ==> e.snap
            == Snapshot::User(u),
    ensures
        user_read_out(ces1, cache_up2, us1, true, user_id, guild_id, now2) == Ok::<
            User,
            DataError,
        >(u),
{
}

/// Invalidate-then-write: after a failed member write through the layer —
/// the member key already invalidated, the store unchanged — a read does
/// not see any previously cached value; it re-fetches the pre-failure
/// store state.
pub proof fn law_failed_write_reads_store(
    ces1: Seq<CacheEntry>,
    cache_up2: bool,
    us: Seq<User>,
    user_id: i64,
    guild_id: i64,
    now2: u64,
)
    requires
        cache_lookup(ces1, CacheKey::Member(guild_id, user_id)) == None::<CacheEntry>,
    ensures
        user_read_out(ces1, cache_up2, us, true, user_id, guild_id, now2) == (
        if has_user(us, user_id, guild_id) {
            Ok::<User, DataError>(user_of(us, user_id, guild_id))
        } else {
            Err::<User, DataError>(DataError::NotFound)
        }),
{
}

/// A cache outage is invisible to callers: with the cache unreachable, a
/// read returns exactly what the store alone dictates.
pub proof fn law_cache_outage_degrades(
    ces: Seq<CacheEntry>,
    us: Seq<User>,
    store_up: bool,
    user_id: i64,
    guild_id: i64,
    now: u64,
)
    ensures
        user_read_out(ces, false, us, store_up, user_id, guild_id, now) == (
        if !store_up {
            Err::<User, DataError>(DataError::StoreUnavailable)
        } else if has_user(us, user_id, guild_id) {
            Ok::<User, DataError>(user_of(us, user_id, guild_id))
        } else {
            Err::<User, DataError>(DataError::NotFound)
        }),
{
}

} // verus!
