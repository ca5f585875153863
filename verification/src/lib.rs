//! Data-consistency core of a chat-platform XP bot: an entity store for
//! guilds and guild members, a TTL cache of entity snapshots, a
//! coherence layer that keeps the two in step (read-through, invalidate
//! before write, repopulate after), and a time-bounded cooldown tracker that
//! rate-limits XP grants per (user, guild) pair.
//!
//! All operations that depend on time take the current time as an explicit
//! `now` argument (seconds on an arbitrary monotone clock), so every
//! time-dependent behaviour is deterministic and fully specified.

pub mod cache;
pub mod coherence;
pub mod cooldown;
pub mod errors;
pub mod models;
pub mod store;
pub mod xp;

pub use errors::CacheError;
pub use errors::DataError;

use vstd::prelude::*;

verus! {

/// Smallest XP amount granted for a chat message.
pub const MIN_MESSAGE_XP: i32 = 15;

/// Largest XP amount granted for a chat message (exclusive bound).
pub const MAX_MESSAGE_XP: i32 = 25;

/// Cooldown window between XP grants for one (user, guild) pair, in seconds.
pub const XP_TIMEOUT_SECS: u64 = 60;

} // verus!
