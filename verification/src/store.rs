//! The entity store: the source of truth for `Guild` and `User` rows.
//!
//! The store state is the sequence of rows in insertion order; rows are
//! never deleted, so the store-assigned row id of the row at position `i`
//! is `i + 1`. Business keys are unique: one guild row per `guild_id`, one
//! user row per (`user_id`, `guild_id`) pair.
//!
//! Every operation first checks availability: an unavailable store performs
//! nothing and reports `StoreUnavailable`. Mutating operations are single
//! atomic transitions of the row sequence (in particular the
//! upsert-with-increment of [`EntityStore::add_guild_user_xp`]), so
//! concurrent callers serialize at the store and no update is lost.

use vstd::prelude::*;

use crate::errors::DataError;
use crate::models::Guild;
use crate::models::NewGuild;
use crate::models::NewUser;
use crate::models::User;

verus! {

/// Some row in `gs` carries the guild id `guild_id`.
pub open spec fn has_guild(gs: Seq<Guild>, guild_id: i64) -> bool {
    exists|i: int| 0 <= i < gs.len() && gs[i].guild_id == guild_id
}

/// The index of the row carrying `guild_id` (unique when `guilds_unique`).
pub open spec fn guild_ix(gs: Seq<Guild>, guild_id: i64) -> int {
    choose|i: int| 0 <= i < gs.len() && gs[i].guild_id == guild_id
}

/// The row carrying `guild_id`.
pub open spec fn guild_of(gs: Seq<Guild>, guild_id: i64) -> Guild {
    gs[guild_ix(gs, guild_id)]
}

/// Row ids are the positions in insertion order and prefixes are non-empty.
pub open spec fn guilds_wf(gs: Seq<Guild>) -> bool {
    forall|i: int| 0 <= i < gs.len()
        ==> (#[trigger] gs[i]).id == i + 1 && gs[i].prefix@.len() > 0
}

/// No two rows carry the same guild id.
pub open spec fn guilds_unique(gs: Seq<Guild>) -> bool {
    forall|i: int, j: int|
        0 <= i < gs.len() && 0 <= j < gs.len() && i != j
            ==> (#[trigger] gs[i]).guild_id != (#[trigger] gs[j]).guild_id
}

/// Some row in `us` carries the pair (`user_id`, `guild_id`).
pub open spec fn has_user(us: Seq<User>, user_id: i64, guild_id: i64) -> bool {
    exists|i: int|
        0 <= i < us.len() && us[i].user_id == user_id && us[i].guild_id == guild_id
}

/// The index of the row carrying the pair (unique when `users_unique`).
pub open spec fn user_ix(us: Seq<User>, user_id: i64, guild_id: i64) -> int {
    choose|i: int|
        0 <= i < us.len() && us[i].user_id == user_id && us[i].guild_id == guild_id
}

/// The row carrying the pair (`user_id`, `guild_id`).
pub open spec fn user_of(us: Seq<User>, user_id: i64, guild_id: i64) -> User {
    us[user_ix(us, user_id, guild_id)]
}

/// Row ids are the positions in insertion order and XP is never negative.
pub open spec fn users_wf(us: Seq<User>) -> bool {
    forall|i: int| 0 <= i < us.len()
        ==> (#[trigger] us[i]).id == i + 1 && us[i].xp >= 0
}

/// No two rows carry the same (`user_id`, `guild_id`) pair.
pub open spec fn users_unique(us: Seq<User>) -> bool {
    forall|i: int, j: int|
        0 <= i < us.len() && 0 <= j < us.len() && i != j
            ==> ((#[trigger] us[i]).user_id != (#[trigger] us[j]).user_id
                || us[i].guild_id != us[j].guild_id)
}

/// The XP of the pair's row, or 0 if the row does not exist yet.
pub open spec fn user_xp_or_zero(us: Seq<User>, user_id: i64, guild_id: i64) -> int {
    if has_user(us, user_id, guild_id) {
        user_of(us, user_id, guild_id).xp as int
    } else {
        0
    }
}

/// The guild rows after an upsert of `prefix` under `guild_id`: the
/// existing row updated in place, or a fresh row appended.
pub open spec fn upsert_guild_prefix(gs: Seq<Guild>, guild_id: i64, prefix: String) -> Seq<Guild> {
    if has_guild(gs, guild_id) {
        gs.update(
            guild_ix(gs, guild_id),
            Guild { id: guild_of(gs, guild_id).id, guild_id, prefix },
        )
    } else {
        gs.push(Guild { id: (gs.len() + 1) as i32, guild_id, prefix })
    }
}

/// The user rows after an upsert-with-increment of `delta` under the pair:
/// the existing row's XP incremented, or a fresh unblocked row with
/// `xp = delta` appended.
pub open spec fn add_user_xp_rows(us: Seq<User>, user_id: i64, guild_id: i64, delta: i32) -> Seq<User> {
    if has_user(us, user_id, guild_id) {
        us.update(
            user_ix(us, user_id, guild_id),
            User {
                id: user_of(us, user_id, guild_id).id,
                user_id,
                guild_id,
                xp: (user_of(us, user_id, guild_id).xp + delta) as i32,
                blocked: user_of(us, user_id, guild_id).blocked,
            },
        )
    } else {
        us.push(User { id: (us.len() + 1) as i32, user_id, guild_id, xp: delta, blocked: false })
    }
}

/// The user rows after setting the pair's XP to `xp` (a pure update;
/// meaningful only when the row exists).
pub open spec fn set_user_xp_rows(us: Seq<User>, user_id: i64, guild_id: i64, xp: i32) -> Seq<User> {
    us.update(
        user_ix(us, user_id, guild_id),
        User {
            id: user_of(us, user_id, guild_id).id,
            user_id,
            guild_id,
            xp,
            blocked: user_of(us, user_id, guild_id).blocked,
        },
    )
}

/// The rows of `us.take(n)` that belong to `guild_id`, in insertion order.
pub open spec fn users_of_guild_upto(us: Seq<User>, guild_id: i64, n: int) -> Seq<User>
    decreases n,
{
    if n <= 0 || n > us.len() {
        Seq::empty()
    } else if us[n - 1].guild_id == guild_id {
        users_of_guild_upto(us, guild_id, n - 1).push(us[n - 1])
    } else {
        users_of_guild_upto(us, guild_id, n - 1)
    }
}

/// The rows of `us` that belong to `guild_id`, in insertion order.
pub open spec fn users_of_guild(us: Seq<User>, guild_id: i64) -> Seq<User> {
    users_of_guild_upto(us, guild_id, us.len() as int)
}

/// In `us.take(n)`, the index of the first row with the highest XP.
pub open spec fn first_max_upto(us: Seq<User>, n: int) -> int
    decreases n,
{
    if n <= 1 {
        0
    } else if us[n - 1].xp > us[first_max_upto(us, n - 1)].xp {
        n - 1
    } else {
        first_max_upto(us, n - 1)
    }
}

/// The index of the first row of `us` with the highest XP.
pub open spec fn first_max_ix(us: Seq<User>) -> int {
    first_max_upto(us, us.len() as int)
}

/// `us` reordered by descending XP; rows of equal XP keep their relative
/// order (the sort is stable: it repeatedly extracts the first row with the
/// highest XP).
pub open spec fn sorted_by_xp_desc(us: Seq<User>) -> Seq<User>
    decreases us.len(),
    via sorted_by_xp_desc_decreases
{
    if us.len() == 0 {
        Seq::empty()
    } else {
        seq![us[first_max_ix(us)]] + sorted_by_xp_desc(us.remove(first_max_ix(us)))
    }
}

#[via_fn]
proof fn sorted_by_xp_desc_decreases(us: Seq<User>) {
    if us.len() > 0 {
        lemma_first_max_upto(us, us.len() as int);
    }
}

/// The first `n` rows of `guild_id`'s members ordered by descending XP,
/// ties kept in insertion order.
pub open spec fn top_n_users(us: Seq<User>, guild_id: i64, n: int) -> Seq<User> {
    let sorted = sorted_by_xp_desc(users_of_guild(us, guild_id));
    if n >= sorted.len() {
        sorted
    } else {
        sorted.take(n)
    }
}

/// Under uniqueness, an index holding `guild_id` is the index `guild_ix`
/// picks.
pub proof fn lemma_guild_ix_is(gs: Seq<Guild>, guild_id: i64, i: int)
    requires
        guilds_unique(gs),
        0 <= i < gs.len(),
        gs[i].guild_id == guild_id,
    ensures
        has_guild(gs, guild_id),
        guild_ix(gs, guild_id) == i,
{
    assert(has_guild(gs, guild_id));
    let j = guild_ix(gs, guild_id);
    assert(0 <= j < gs.len() && gs[j].guild_id == guild_id);
}

/// Under uniqueness, an index holding the pair is the index `user_ix` picks.
pub proof fn lemma_user_ix_is(us: Seq<User>, user_id: i64, guild_id: i64, i: int)
    requires
        users_unique(us),
        0 <= i < us.len(),
        us[i].user_id == user_id,
        us[i].guild_id == guild_id,
    ensures
        has_user(us, user_id, guild_id),
        user_ix(us, user_id, guild_id) == i,
{
    assert(has_user(us, user_id, guild_id));
    let j = user_ix(us, user_id, guild_id);
    assert(0 <= j < us.len() && us[j].user_id == user_id && us[j].guild_id == guild_id);
}

/// `first_max_upto` picks, among the first `n` rows, the earliest row with
/// the highest XP.
pub proof fn lemma_first_max_upto(us: Seq<User>, n: int)
    requires
        1 <= n <= us.len(),
    ensures
        0 <= first_max_upto(us, n) < n,
        forall|j: int| 0 <= j < n ==> (#[trigger] us[j]).xp <= us[first_max_upto(us, n)].xp,
        forall|j: int| 0 <= j < first_max_upto(us, n) ==> (#[trigger] us[j]).xp < us[first_max_upto(us, n)].xp,
    decreases n,
{
    if n > 1 {
        lemma_first_max_upto(us, n - 1);
    }
}

/// Durable storage for guild and guild-member rows.
pub struct EntityStore {
    /// Guild rows in insertion order.
    pub guilds: Vec<Guild>,
    /// Guild-member rows in insertion order.
    pub users: Vec<User>,
    /// Whether the store can be reached. When false every operation fails
    /// with `StoreUnavailable` and changes nothing.
    pub available: bool,
}

impl EntityStore {
    /// Well-formedness: sequential row ids, non-empty prefixes, non-negative
    /// XP, unique business keys.
    pub open spec fn wf(&self) -> bool {
        &&& guilds_wf(self.guilds@)
        &&& guilds_unique(self.guilds@)
        &&& users_wf(self.users@)
        &&& users_unique(self.users@)
    }

    /// An empty, reachable store.
    pub fn new() -> (s: EntityStore)
        ensures
            s.wf(),
            s.guilds@ =~= Seq::<Guild>::empty(),
            s.users@ =~= Seq::<User>::empty(),
            s.available,
    {
        EntityStore { guilds: Vec::new(), users: Vec::new(), available: true }
    }

    /// Insert a guild row with a default prefix of `"~"`. Fails with
    /// `Conflict` if the guild id is already present.
    pub fn create_guild(&mut self, guild_id: i64) -> (r: Result<Guild, DataError>)
        requires
            old(self).wf(),
            old(self).guilds@.len() < i32::MAX,
        ensures
            final(self).wf(),
            final(self).available == old(self).available,
            final(self).users@ == old(self).users@,
            !old(self).available ==> r == Err::<Guild, DataError>(DataError::StoreUnavailable)
                && final(self).guilds@ == old(self).guilds@,
            old(self).available && has_guild(old(self).guilds@, guild_id)
                ==> r == Err::<Guild, DataError>(DataError::Conflict)
                && final(self).guilds@ == old(self).guilds@,
            old(self).available && !has_guild(old(self).guilds@, guild_id) ==> {
                &&& r matches Ok(g)
                &&& g.id == old(self).guilds@.len() + 1
                &&& g.guild_id == guild_id
                &&& g.prefix@ == "~"@
                &&& final(self).guilds@ == old(self).guilds@.push(g)
            },
    {
        if !self.available {
            return Err(DataError::StoreUnavailable);
        }
        if find_guild(&self.guilds, guild_id).is_some() {
            return Err(DataError::Conflict);
        }
        proof {
            reveal_strlit("~");
        }
        let payload = NewGuild { guild_id, prefix: "~".to_owned() };
        Ok(self.push_guild_row(payload))
    }

    /// Read the guild row under `guild_id`; `NotFound` if absent.
    pub fn get_guild(&self, guild_id: i64) -> (r: Result<Guild, DataError>)
        requires
            self.wf(),
        ensures
            !self.available ==> r == Err::<Guild, DataError>(DataError::StoreUnavailable),
            self.available && has_guild(self.guilds@, guild_id)
                ==> r == Ok::<Guild, DataError>(guild_of(self.guilds@, guild_id)),
            self.available && !has_guild(self.guilds@, guild_id)
                ==> r == Err::<Guild, DataError>(DataError::NotFound),
    {
        if !self.available {
            return Err(DataError::StoreUnavailable);
        }
        match find_guild(&self.guilds, guild_id) {
            Some(i) => {
                proof {
                    lemma_guild_ix_is(self.guilds@, guild_id, i as int);
                }
                Ok(self.guilds[i].clone())
            },
            None => Err(DataError::NotFound),
        }
    }

    /// Upsert `prefix` under `guild_id`: update the existing row, or insert
    /// a fresh one carrying the given prefix.
    pub fn set_guild_prefix(&mut self, guild_id: i64, prefix: String) -> (r: Result<
        Guild,
        DataError,
    >)
        requires
            old(self).wf(),
            old(self).guilds@.len() < i32::MAX,
            prefix@.len() > 0,
        ensures
            final(self).wf(),
            final(self).available == old(self).available,
            final(self).users@ == old(self).users@,
            !old(self).available ==> r == Err::<Guild, DataError>(DataError::StoreUnavailable)
                && final(self).guilds@ == old(self).guilds@,
            old(self).available ==> {
                &&& final(self).guilds@ == upsert_guild_prefix(old(self).guilds@, guild_id, prefix)
                &&& r matches Ok(g)
                &&& g.guild_id == guild_id
                &&& g.prefix == prefix
                &&& has_guild(final(self).guilds@, guild_id)
                &&& guild_of(final(self).guilds@, guild_id) == g
            },
    {
        if !self.available {
            return Err(DataError::StoreUnavailable);
        }
        match find_guild(&self.guilds, guild_id) {
            Some(i) => {
                proof {
                    lemma_guild_ix_is(self.guilds@, guild_id, i as int);
                }
                let id: i32 = self.guilds[i].id;
                let updated = Guild { id, guild_id, prefix };
                let ret = updated.clone();
                self.guilds.set(i, updated);
                proof {
                    lemma_guild_ix_is(self.guilds@, guild_id, i as int);
                }
                Ok(ret)
            },
            None => {
                let g = self.push_guild_row(NewGuild { guild_id, prefix });
                proof {
                    lemma_guild_ix_is(self.guilds@, guild_id, self.guilds@.len() - 1);
                }
                Ok(g)
            },
        }
    }

    /// Insert a member row with zero XP. Fails with `Conflict` if the pair
    /// already exists.
    pub fn create_guild_user(&mut self, user_id: i64, guild_id: i64) -> (r: Result<
        User,
        DataError,
    >)
        requires
            old(self).wf(),
            old(self).users@.len() < i32::MAX,
        ensures
            final(self).wf(),
            final(self).available == old(self).available,
            final(self).guilds@ == old(self).guilds@,
            !old(self).available ==> r == Err::<User, DataError>(DataError::StoreUnavailable)
                && final(self).users@ == old(self).users@,
            old(self).available && has_user(old(self).users@, user_id, guild_id)
                ==> r == Err::<User, DataError>(DataError::Conflict)
                && final(self).users@ == old(self).users@,
            old(self).available && !has_user(old(self).users@, user_id, guild_id) ==> {
                &&& r matches Ok(u)
                &&& u == User {
                    id: (old(self).users@.len() + 1) as i32,
                    user_id,
                    guild_id,
                    xp: 0,
                    blocked: false,
                }
                &&& final(self).users@ == old(self).users@.push(u)
            },
    {
        self.create_guild_user_with_xp(user_id, guild_id, 0)
    }

    /// Insert a member row with the given XP. Fails with `Conflict` if the
    /// pair already exists.
    pub fn create_guild_user_with_xp(&mut self, user_id: i64, guild_id: i64, xp: i32) -> (r:
        Result<User, DataError>)
        requires
            old(self).wf(),
            old(self).users@.len() < i32::MAX,
            xp >= 0,
        ensures
            final(self).wf(),
            final(self).available == old(self).available,
            final(self).guilds@ == old(self).guilds@,
            !old(self).available ==> r == Err::<User, DataError>(DataError::StoreUnavailable)
                && final(self).users@ == old(self).users@,
            old(self).available && has_user(old(self).users@, user_id, guild_id)
                ==> r == Err::<User, DataError>(DataError::Conflict)
                && final(self).users@ == old(self).users@,
            old(self).available && !has_user(old(self).users@, user_id, guild_id) ==> {
                &&& r matches Ok(u)
                &&& u == User {
                    id: (old(self).users@.len() + 1) as i32,
                    user_id,
                    guild_id,
                    xp,
                    blocked: false,
                }
                &&& final(self).users@ == old(self).users@.push(u)
            },
    {
        if !self.available {
            return Err(DataError::StoreUnavailable);
        }
        if find_user(&self.users, user_id, guild_id).is_some() {
            return Err(DataError::Conflict);
        }
        let payload = NewUser { user_id, guild_id, xp, blocked: false };
        Ok(self.push_user_row(payload))
    }

    /// Read the member row under the pair; `NotFound` if absent.
    pub fn get_guild_user(&self, user_id: i64, guild_id: i64) -> (r: Result<User, DataError>)
        requires
            self.wf(),
        ensures
            !self.available ==> r == Err::<User, DataError>(DataError::StoreUnavailable),
            self.available && has_user(self.users@, user_id, guild_id)
                ==> r == Ok::<User, DataError>(user_of(self.users@, user_id, guild_id)),
            self.available && !has_user(self.users@, user_id, guild_id)
                ==> r == Err::<User, DataError>(DataError::NotFound),
    {
        if !self.available {
            return Err(DataError::StoreUnavailable);
        }
        match find_user(&self.users, user_id, guild_id) {
            Some(i) => {
                proof {
                    lemma_user_ix_is(self.users@, user_id, guild_id, i as int);
                }
                Ok(self.users[i])
            },
            None => Err(DataError::NotFound),
        }
    }

    /// All member rows of `guild_id`, in insertion order.
    pub fn get_guild_users(&self, guild_id: i64) -> (r: Result<Vec<User>, DataError>)
        requires
            self.wf(),
        ensures
            !self.available ==> r == Err::<Vec<User>, DataError>(DataError::StoreUnavailable),
            self.available ==> (r matches Ok(v) && v@ == users_of_guild(self.users@, guild_id)),
    {
        if !self.available {
            return Err(DataError::StoreUnavailable);
        }
        let mut out: Vec<User> = Vec::new();
        let mut i: usize = 0;
        while i < self.users.len()
            invariant
                0 <= i <= self.users@.len(),
                out@ == users_of_guild_upto(self.users@, guild_id, i as int),
            decreases self.users@.len() - i,
        {
            if self.users[i].guild_id == guild_id {
                out.push(self.users[i]);
            }
            i += 1;
        }
        Ok(out)
    }

    /// Set the XP of an existing member row (a pure update, not an upsert);
    /// `NotFound` if the pair is absent.
    pub fn set_guild_user_xp(&mut self, user_id: i64, guild_id: i64, xp: i32) -> (r: Result<
        User,
        DataError,
    >)
        requires
            old(self).wf(),
            xp >= 0,
        ensures
            final(self).wf(),
            final(self).available == old(self).available,
            final(self).guilds@ == old(self).guilds@,
            !old(self).available ==> r == Err::<User, DataError>(DataError::StoreUnavailable)
                && final(self).users@ == old(self).users@,
            old(self).available && !has_user(old(self).users@, user_id, guild_id)
                ==> r == Err::<User, DataError>(DataError::NotFound)
                && final(self).users@ == old(self).users@,
            old(self).available && has_user(old(self).users@, user_id, guild_id) ==> {
                &&& final(self).users@ == set_user_xp_rows(old(self).users@, user_id, guild_id, xp)
                &&& r matches Ok(u)
                &&& u == User {
                    id: user_of(old(self).users@, user_id, guild_id).id,
                    user_id,
                    guild_id,
                    xp,
                    blocked: user_of(old(self).users@, user_id, guild_id).blocked,
                }
                &&& has_user(final(self).users@, user_id, guild_id)
                &&& user_of(final(self).users@, user_id, guild_id) == u
            },
    {
        if !self.available {
            return Err(DataError::StoreUnavailable);
        }
        match find_user(&self.users, user_id, guild_id) {
            Some(i) => {
                proof {
                    lemma_user_ix_is(self.users@, user_id, guild_id, i as int);
                }
                let row = self.users[i];
                let updated = User { id: row.id, user_id, guild_id, xp, blocked: row.blocked };
                self.users.set(i, updated);
                proof {
                    lemma_user_ix_is(self.users@, user_id, guild_id, i as int);
                }
                Ok(updated)
            },
            None => Err(DataError::NotFound),
        }
    }

    /// Upsert-with-increment: add `delta` to the pair's XP, creating the
    /// row with `xp = delta` (unblocked) if it does not exist. One atomic
    /// store transition, so concurrent grants never lose an update.
    pub fn add_guild_user_xp(&mut self, user_id: i64, guild_id: i64, delta: i32) -> (r: Result<
        User,
        DataError,
    >)
        requires
            old(self).wf(),
            delta >= 0,
            user_xp_or_zero(old(self).users@, user_id, guild_id) + delta <= i32::MAX,
            old(self).users@.len() < i32::MAX,
        ensures
            final(self).wf(),
            final(self).available == old(self).available,
            final(self).guilds@ == old(self).guilds@,
            !old(self).available ==> r == Err::<User, DataError>(DataError::StoreUnavailable)
                && final(self).users@ == old(self).users@,
            old(self).available ==> {
                &&& final(self).users@ == add_user_xp_rows(old(self).users@, user_id, guild_id, delta)
                &&& r matches Ok(u)
                &&& u.user_id == user_id
                &&& u.guild_id == guild_id
                &&& u.xp == user_xp_or_zero(old(self).users@, user_id, guild_id) + delta
                &&& has_user(final(self).users@, user_id, guild_id)
                &&& user_of(final(self).users@, user_id, guild_id) == u
            },
    {
        if !self.available {
            return Err(DataError::StoreUnavailable);
        }
        match find_user(&self.users, user_id, guild_id) {
            Some(i) => {
                proof {
                    lemma_user_ix_is(self.users@, user_id, guild_id, i as int);
                }
                let row = self.users[i];
                let updated = User {
                    id: row.id,
                    user_id,
                    guild_id,
                    xp: row.xp + delta,
                    blocked: row.blocked,
                };
                self.users.set(i, updated);
                proof {
                    lemma_user_ix_is(self.users@, user_id, guild_id, i as int);
                }
                Ok(updated)
            },
            None => {
                let payload = NewUser { user_id, guild_id, xp: delta, blocked: false };
                let u = self.push_user_row(payload);
                proof {
                    lemma_user_ix_is(self.users@, user_id, guild_id, self.users@.len() - 1);
                }
                Ok(u)
            },
        }
    }
    /// The first `n` member rows of `guild_id` ordered by descending XP;
    /// rows of equal XP come in insertion order.
    pub fn top_n_guild_user_xp(&self, guild_id: i64, n: i64) -> (r: Result<Vec<User>, DataError>)
        requires
            self.wf(),
            n >= 0,
        ensures
            !self.available ==> r == Err::<Vec<User>, DataError>(DataError::StoreUnavailable),
            self.available ==> (r matches Ok(v) && v@ == top_n_users(self.users@, guild_id, n as int)),
    {
        if !self.available {
            return Err(DataError::StoreUnavailable);
        }
        let mut work: Vec<User> = Vec::new();
        let mut i: usize = 0;
        while i < self.users.len()
            invariant
                0 <= i <= self.users@.len(),
                work@ == users_of_guild_upto(self.users@, guild_id, i as int),
            decreases self.users@.len() - i,
        {
            if self.users[i].guild_id == guild_id {
                work.push(self.users[i]);
            }
            i += 1;
        }
        let ghost f = work@;
        let mut out: Vec<User> = Vec::new();
        let mut count: i64 = 0;
        while count < n && work.len() > 0
            invariant
                0 <= count <= n,
                count == out@.len(),
                sorted_by_xp_desc(f) == out@ + sorted_by_xp_desc(work@),
            decreases work@.len(),
        {
            let ghost work_pre = work@;
            let ghost out_pre = out@;
            let mut best: usize = 0;
            let mut k: usize = 1;
            while k < work.len()
                invariant
                    1 <= k <= work@.len(),
                    0 <= best < k,
                    best as int == first_max_upto(work@, k as int),
                decreases work@.len() - k,
            {
                if work[k].xp > work[best].xp {
                    best = k;
                }
                k += 1;
            }
            proof {
                lemma_first_max_upto(work@, work@.len() as int);
                assert(best as int == first_max_ix(work@));
            }
            let u = work.remove(best);
            out.push(u);
            proof {
                assert(sorted_by_xp_desc(work_pre) == seq![u] + sorted_by_xp_desc(work@));
                assert(out@ =~= out_pre + seq![u]);
                assert((out_pre + seq![u]) + sorted_by_xp_desc(work@) =~= out_pre + (seq![u]
                    + sorted_by_xp_desc(work@)));
            }
            count = count + 1;
        }
        proof {
            let sorted = sorted_by_xp_desc(f);
            if work@.len() == 0 {
                assert(sorted_by_xp_desc(work@) =~= Seq::<User>::empty());
                assert(sorted =~= out@);
            } else {
                assert(out@.len() == n);
                assert(sorted.take(n as int) =~= out@);
            }
            assert(out@ =~= top_n_users(self.users@, guild_id, n as int));
        }
        Ok(out)
    }
}

/// Index of the guild row carrying `guild_id`, if any.
fn find_guild(gs: &Vec<Guild>, guild_id: i64) -> (r: Option<usize>)
    ensures
        match r {
            Some(i) => 0 <= i < gs@.len() && gs@[i as int].guild_id == guild_id,
            None => !has_guild(gs@, guild_id),
        },
        r is Some <==> has_guild(gs@, guild_id),
{
    let mut i: usize = 0;
    while i < gs.len()
        invariant
            0 <= i <= gs@.len(),
            forall|j: int| 0 <= j < i ==> (#[trigger] gs@[j]).guild_id != guild_id,
        decreases gs@.len() - i,
    {
        if gs[i].guild_id == guild_id {
            return Some(i);
        }
        i += 1;
    }
    None
}

/// Index of the member row carrying the pair, if any.
fn find_user(us: &Vec<User>, user_id: i64, guild_id: i64) -> (r: Option<usize>)
    ensures
        match r {
            Some(i) => 0 <= i < us@.len() && us@[i as int].user_id == user_id
                && us@[i as int].guild_id == guild_id,
            None => !has_user(us@, user_id, guild_id),
        },
        r is Some <==> has_user(us@, user_id, guild_id),
{
    let mut i: usize = 0;
    while i < us.len()
        invariant
            0 <= i <= us@.len(),
            forall|j: int| 0 <= j < i
                ==> !((#[trigger] us@[j]).user_id == user_id && us@[j].guild_id == guild_id),
        decreases us@.len() - i,
    {
        if us[i].user_id == user_id && us[i].guild_id == guild_id {
            return Some(i);
        }
        i += 1;
    }
    None
}

impl EntityStore {
    /// Append a fresh guild row, assigning the next row id.
    fn push_guild_row(&mut self, payload: NewGuild) -> (r: Guild)
        requires
            old(self).wf(),
            !has_guild(old(self).guilds@, payload.guild_id),
            old(self).guilds@.len() < i32::MAX,
            payload.prefix@.len() > 0,
        ensures
            final(self).wf(),
            final(self).available == old(self).available,
            final(self).users@ == old(self).users@,
            r.id == old(self).guilds@.len() + 1,
            r.guild_id == payload.guild_id,
            r.prefix == payload.prefix,
            final(self).guilds@ == old(self).guilds@.push(r),
    {
        let id: i32 = (self.guilds.len() as i32) + 1;
        let g = Guild { id, guild_id: payload.guild_id, prefix: payload.prefix };
        let ret = g.clone();
        self.guilds.push(g);
        ret
    }

    /// Append a fresh member row, assigning the next row id.
    fn push_user_row(&mut self, payload: NewUser) -> (r: User)
        requires
            old(self).wf(),
            !has_user(old(self).users@, payload.user_id, payload.guild_id),
            old(self).users@.len() < i32::MAX,
            payload.xp >= 0,
        ensures
            final(self).wf(),
            final(self).available == old(self).available,
            final(self).guilds@ == old(self).guilds@,
            r == (User {
                id: (old(self).users@.len() + 1) as i32,
                user_id: payload.user_id,
                guild_id: payload.guild_id,
                xp: payload.xp,
                blocked: payload.blocked,
            }),
            final(self).users@ == old(self).users@.push(r),
    {
        let id: i32 = (self.users.len() as i32) + 1;
        let u = User {
            id,
            user_id: payload.user_id,
            guild_id: payload.guild_id,
            xp: payload.xp,
            blocked: payload.blocked,
        };
        self.users.push(u);
        u
    }
}

} // verus!
