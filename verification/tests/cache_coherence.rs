//! Read-through, write-invalidate and degradation behaviour of the
//! coherence layer, and the TTL cache on its own.

use free6::errors::CacheError;
use free6::cache::TtlCache;
use free6::coherence::Database;
use free6::errors::DataError;
use free6::models::Guild;
use free6::models::User;

#[test]
fn get_guild_on_fresh_database_is_not_found() {
    let mut db = Database::new();
    assert_eq!(db.get_guild(42, 0).unwrap_err(), DataError::NotFound);
}

#[test]
fn read_through_populates_cache_and_serves_hits() {
    let mut db = Database::new();
    db.create_guild(10).unwrap();
    assert!(db.cache.entries.is_empty(), "create_guild does not populate the cache");
    let g = db.get_guild(10, 100).unwrap();
    assert_eq!(g.prefix, "~");
    assert_eq!(db.cache.entries.len(), 1, "a read-through miss populates the cache");
    // A direct store mutation bypassing the layer is not observed while
    // the cached snapshot is live ...
    db.store.set_guild_prefix(10, "$".to_string()).unwrap();
    assert_eq!(db.get_guild(10, 105).unwrap().prefix, "~");
    // ... but is observed once the entry has expired (staleness is
    // bounded by the TTL).
    assert_eq!(db.get_guild(10, 110).unwrap().prefix, "$");
}

#[test]
fn layer_write_is_observed_by_the_next_layer_read() {
    let mut db = Database::new();
    db.create_guild_user(7, 10, 0).unwrap();
    assert_eq!(db.get_guild_user(7, 10, 1).unwrap().xp, 0);
    let u = db.set_guild_user_xp(7, 10, 50, 2).unwrap();
    assert_eq!(u.xp, 50);
    assert_eq!(db.get_guild_user(7, 10, 3).unwrap().xp, 50, "read right after the write");
    assert_eq!(db.get_guild_user(7, 10, 500).unwrap().xp, 50, "read after the cache expired");
}

#[test]
fn failed_write_invalidates_and_rereads_store_state() {
    let mut db = Database::new();
    db.create_guild_user(7, 10, 0).unwrap();
    db.set_guild_user_xp(7, 10, 10, 100).unwrap();
    // Cache now holds xp = 10. Mutate the store behind the layer's back,
    // so the cached snapshot is stale.
    db.store.set_guild_user_xp(7, 10, 99).unwrap();
    // The store write inside the next layer write fails; the entry had
    // already been invalidated.
    db.store.available = false;
    assert_eq!(db.set_guild_user_xp(7, 10, 55, 101).unwrap_err(), DataError::StoreUnavailable);
    db.store.available = true;
    // The next read must not return the stale cached value (10): it
    // re-fetches the pre-failure store state.
    assert_eq!(db.get_guild_user(7, 10, 102).unwrap().xp, 99);
}

#[test]
fn failed_pure_update_also_leaves_no_stale_entry() {
    let mut db = Database::new();
    db.create_guild_user(7, 10, 0).unwrap();
    db.get_guild_user(7, 10, 100).unwrap();
    assert_eq!(db.cache.entries.len(), 1);
    // NotFound for a different pair leaves that pair's key empty without
    // touching the existing entry.
    assert_eq!(db.set_guild_user_xp(8, 10, 5, 100).unwrap_err(), DataError::NotFound);
    assert_eq!(db.cache.entries.len(), 1);
}

#[test]
fn add_xp_accumulates_through_the_layer() {
    let mut db = Database::new();
    let a = db.add_guild_user_xp(7, 10, 15, 0).unwrap();
    assert_eq!(a.xp, 15);
    let b = db.add_guild_user_xp(7, 10, 27, 1).unwrap();
    assert_eq!(b.xp, 42);
    assert_eq!(db.store.users.len(), 1);
    assert_eq!(db.get_guild_user(7, 10, 2).unwrap().xp, 42);
}

#[test]
fn set_guild_prefix_upserts_and_caches_through_the_layer() {
    let mut db = Database::new();
    let created = db.set_guild_prefix(10, "!".to_string(), 0).unwrap();
    assert_eq!(created.prefix, "!");
    let updated = db.set_guild_prefix(10, "?".to_string(), 1).unwrap();
    assert_eq!(updated.id, created.id);
    assert_eq!(db.store.guilds.len(), 1);
    assert_eq!(db.get_guild_prefix(10, 2).unwrap(), "?");
}

#[test]
fn cache_outage_degrades_to_store_only() {
    let mut db = Database::new();
    db.create_guild(10).unwrap();
    db.cache.available = false;
    assert_eq!(db.get_guild(10, 0).unwrap().guild_id, 10);
    assert_eq!(db.get_guild_prefix(10, 0).unwrap(), "~");
    let u = db.add_guild_user_xp(7, 10, 15, 0).unwrap();
    assert_eq!(u.xp, 15);
    assert_eq!(db.set_guild_user_xp(7, 10, 20, 0).unwrap().xp, 20);
    assert_eq!(db.get_guild_user(7, 10, 0).unwrap().xp, 20);
    assert!(db.cache.entries.is_empty(), "an unreachable cache takes no entries");
    // Back up: the next read repopulates and hits as usual.
    db.cache.available = true;
    assert_eq!(db.get_guild_user(7, 10, 1).unwrap().xp, 20);
    assert_eq!(db.cache.entries.len(), 1);
}

#[test]
fn store_outage_surfaces_verbatim_from_the_layer() {
    let mut db = Database::new();
    db.create_guild(10).unwrap();
    db.store.available = false;
    assert_eq!(db.get_guild(10, 0).unwrap_err(), DataError::StoreUnavailable);
    assert_eq!(db.create_guild(20).unwrap_err(), DataError::StoreUnavailable);
    assert_eq!(db.add_guild_user_xp(7, 10, 5, 0).unwrap_err(), DataError::StoreUnavailable);
    assert_eq!(db.get_guild_users(10).unwrap_err(), DataError::StoreUnavailable);
}

#[test]
fn cached_read_skips_an_unreachable_store() {
    let mut db = Database::new();
    db.create_guild(10).unwrap();
    db.get_guild(10, 0).unwrap();
    db.store.available = false;
    // Within the TTL the cached snapshot still answers.
    assert_eq!(db.get_guild(10, 5).unwrap().guild_id, 10);
    // After expiry the layer must go to the store, which is down.
    assert_eq!(db.get_guild(10, 20).unwrap_err(), DataError::StoreUnavailable);
}

#[test]
fn create_guild_user_populates_cache_on_success_only() {
    let mut db = Database::new();
    db.create_guild_user_with_xp(7, 10, 5, 0).unwrap();
    assert_eq!(db.cache.entries.len(), 1);
    assert_eq!(db.create_guild_user(7, 10, 1).unwrap_err(), DataError::Conflict);
    assert_eq!(db.cache.entries.len(), 1, "a conflict must not touch the cache");
}

#[test]
fn ttl_cache_expires_and_purges_lazily() {
    let mut c = TtlCache::new();
    let g = Guild { id: 1, guild_id: 10, prefix: "~".to_string() };
    c.set_guild(&g, 100).unwrap();
    assert_eq!(c.get_guild(10, 105).unwrap().unwrap().guild_id, 10);
    assert_eq!(c.get_guild(10, 109).unwrap().unwrap().guild_id, 10);
    // The entry expires exactly at set-time + TTL.
    assert!(c.get_guild(10, 110).unwrap().is_none());
    assert!(c.entries.is_empty(), "the expired entry was purged by the read");
}

#[test]
fn ttl_cache_overwrites_and_deletes_idempotently() {
    let mut c = TtlCache::new();
    let u1 = User { id: 1, user_id: 7, guild_id: 10, xp: 5, blocked: false };
    let u2 = User { id: 1, user_id: 7, guild_id: 10, xp: 9, blocked: false };
    c.set_user(&u1, 0).unwrap();
    c.set_user(&u2, 1).unwrap();
    assert_eq!(c.entries.len(), 1);
    assert_eq!(c.get_user(10, 7, 2).unwrap().unwrap().xp, 9);
    c.del_user(10, 7).unwrap();
    c.del_user(10, 7).unwrap();
    assert!(c.get_user(10, 7, 2).unwrap().is_none());
}

#[test]
fn guild_and_member_keys_never_collide() {
    let mut c = TtlCache::new();
    let g = Guild { id: 1, guild_id: 10, prefix: "~".to_string() };
    let u = User { id: 1, user_id: 10, guild_id: 10, xp: 5, blocked: false };
    c.set_guild(&g, 0).unwrap();
    c.set_user(&u, 0).unwrap();
    assert_eq!(c.entries.len(), 2);
    c.del_guild(10).unwrap();
    assert!(c.get_user(10, 10, 1).unwrap().is_some(), "deleting the guild key leaves the member key");
}

#[test]
fn unreachable_cache_reports_unavailable() {
    let mut c = TtlCache::new();
    let g = Guild { id: 1, guild_id: 10, prefix: "~".to_string() };
    c.available = false;
    assert_eq!(c.set_guild(&g, 0).unwrap_err(), CacheError::Unavailable);
    assert_eq!(c.get_guild(10, 0).unwrap_err(), CacheError::Unavailable);
    assert_eq!(c.del_guild(10).unwrap_err(), CacheError::Unavailable);
    assert!(c.entries.is_empty());
}
