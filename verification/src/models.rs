//! Entity records held by the store and cached as snapshots.
//!
//! A `Guild` row is keyed by the platform-assigned `guild_id`; a `User` row
//! (a guild member) is keyed by the composite (`user_id`, `guild_id`). The
//! `id` field of each is the store-assigned row id: rows are never deleted,
//! so row ids are simply 1, 2, 3, ... in insertion order. `NewGuild` and
//! `NewUser` are the insert payloads; the store assigns the row id.

use vstd::prelude::*;

verus! {

/// A guild row: one per `guild_id`, holding the command prefix.
#[derive(Debug)]
pub struct Guild {
    /// Store-assigned row id (position in insertion order, starting at 1).
    pub id: i32,
    /// Platform-assigned guild identifier, unique across rows.
    pub guild_id: i64,
    /// Command-invocation prefix; never empty.
    pub prefix: String,
}

impl Clone for Guild {
    fn clone(&self) -> (r: Self)
        ensures
            r == *self,
    {
        Guild { id: self.id, guild_id: self.guild_id, prefix: self.prefix.clone() }
    }
}

/// Insert payload for a guild row.
#[derive(Debug)]
pub struct NewGuild {
    pub guild_id: i64,
    pub prefix: String,
}

/// A guild-member row: one per (`user_id`, `guild_id`) pair.
#[derive(Clone, Copy, Debug, PartialEq, Eq, Structural)]
pub struct User {
    /// Store-assigned row id (position in insertion order, starting at 1).
    pub id: i32,
    /// Platform-assigned user identifier.
    pub user_id: i64,
    /// Platform-assigned guild identifier.
    pub guild_id: i64,
    /// Accumulated experience points; never negative.
    pub xp: i32,
    /// Whether the member is excluded from XP accrual.
    pub blocked: bool,
}

/// Insert payload for a guild-member row.
#[derive(Clone, Copy, Debug, PartialEq, Eq, Structural)]
pub struct NewUser {
    pub user_id: i64,
    pub guild_id: i64,
    pub xp: i32,
    pub blocked: bool,
}

} // verus!
