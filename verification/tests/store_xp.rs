//! Entity-store behaviour and the XP/level formulas.

use free6::errors::DataError;
use free6::store::EntityStore;
use free6::xp::ceil_sqrt;
use free6::xp::lvl_to_xp;
use free6::xp::xp_to_lvl;
use free6::xp::xp_to_next_lvl;

#[test]
fn create_guild_assigns_default_prefix_and_sequential_ids() {
    let mut s = EntityStore::new();
    let a = s.create_guild(10).unwrap();
    let b = s.create_guild(20).unwrap();
    assert_eq!(a.id, 1);
    assert_eq!(a.guild_id, 10);
    assert_eq!(a.prefix, "~");
    assert_eq!(b.id, 2);
    assert_eq!(b.guild_id, 20);
}

#[test]
fn create_guild_twice_conflicts() {
    let mut s = EntityStore::new();
    s.create_guild(10).unwrap();
    assert_eq!(s.create_guild(10).unwrap_err(), DataError::Conflict);
}

#[test]
fn get_guild_not_found_when_absent() {
    let s = EntityStore::new();
    assert_eq!(s.get_guild(77).unwrap_err(), DataError::NotFound);
}

#[test]
fn set_guild_prefix_upserts_without_duplicating() {
    let mut s = EntityStore::new();
    let created = s.set_guild_prefix(10, "!".to_string()).unwrap();
    assert_eq!(created.prefix, "!");
    assert_eq!(created.id, 1);
    let updated = s.set_guild_prefix(10, "?".to_string()).unwrap();
    assert_eq!(updated.prefix, "?");
    assert_eq!(updated.id, 1, "update must keep the same row");
    assert_eq!(s.guilds.len(), 1, "no duplicate row may appear");
    assert_eq!(s.get_guild(10).unwrap().prefix, "?");
}

#[test]
fn create_guild_user_conflicts_on_second_insert() {
    let mut s = EntityStore::new();
    let u = s.create_guild_user(7, 10).unwrap();
    assert_eq!(u.xp, 0);
    assert!(!u.blocked);
    assert_eq!(s.create_guild_user(7, 10).unwrap_err(), DataError::Conflict);
    assert_eq!(s.create_guild_user_with_xp(7, 10, 5).unwrap_err(), DataError::Conflict);
}

#[test]
fn get_guild_user_not_found_when_absent() {
    let s = EntityStore::new();
    assert_eq!(s.get_guild_user(7, 10).unwrap_err(), DataError::NotFound);
}

#[test]
fn set_guild_user_xp_is_a_pure_update() {
    let mut s = EntityStore::new();
    assert_eq!(s.set_guild_user_xp(7, 10, 50).unwrap_err(), DataError::NotFound);
    s.create_guild_user(7, 10).unwrap();
    let u = s.set_guild_user_xp(7, 10, 50).unwrap();
    assert_eq!(u.xp, 50);
    assert_eq!(s.get_guild_user(7, 10).unwrap().xp, 50);
    assert_eq!(s.users.len(), 1);
}

#[test]
fn add_guild_user_xp_accumulates_without_duplicate_rows() {
    let mut s = EntityStore::new();
    let first = s.add_guild_user_xp(7, 10, 15).unwrap();
    assert_eq!(first.xp, 15);
    assert!(!first.blocked);
    let second = s.add_guild_user_xp(7, 10, 27).unwrap();
    assert_eq!(second.xp, 42);
    assert_eq!(s.users.len(), 1, "upsert must not duplicate the row");
}

#[test]
fn get_guild_users_filters_by_guild_in_insertion_order() {
    let mut s = EntityStore::new();
    s.add_guild_user_xp(1, 10, 5).unwrap();
    s.add_guild_user_xp(2, 20, 6).unwrap();
    s.add_guild_user_xp(3, 10, 7).unwrap();
    let members = s.get_guild_users(10).unwrap();
    assert_eq!(members.len(), 2);
    assert_eq!(members[0].user_id, 1);
    assert_eq!(members[1].user_id, 3);
    assert!(s.get_guild_users(30).unwrap().is_empty());
}

#[test]
fn top_n_orders_by_xp_descending_with_stable_ties() {
    let mut s = EntityStore::new();
    s.add_guild_user_xp(1, 10, 5).unwrap();
    s.add_guild_user_xp(2, 10, 30).unwrap();
    s.add_guild_user_xp(3, 10, 10).unwrap();
    s.add_guild_user_xp(4, 10, 30).unwrap();
    let top = s.top_n_guild_user_xp(10, 3).unwrap();
    let xs: Vec<i32> = top.iter().map(|u| u.xp).collect();
    assert_eq!(xs, vec![30, 30, 10]);
    let tied: Vec<i64> = top.iter().take(2).map(|u| u.user_id).collect();
    assert_eq!(tied, vec![2, 4], "ties keep insertion order");
}

#[test]
fn top_n_truncates_and_tolerates_large_n() {
    let mut s = EntityStore::new();
    s.add_guild_user_xp(1, 10, 5).unwrap();
    s.add_guild_user_xp(2, 10, 8).unwrap();
    assert_eq!(s.top_n_guild_user_xp(10, 1).unwrap().len(), 1);
    assert_eq!(s.top_n_guild_user_xp(10, 0).unwrap().len(), 0);
    assert_eq!(s.top_n_guild_user_xp(10, 50).unwrap().len(), 2);
}

#[test]
fn store_unavailable_fails_every_operation_and_changes_nothing() {
    let mut s = EntityStore::new();
    s.create_guild(10).unwrap();
    s.available = false;
    assert_eq!(s.create_guild(20).unwrap_err(), DataError::StoreUnavailable);
    assert_eq!(s.get_guild(10).unwrap_err(), DataError::StoreUnavailable);
    assert_eq!(s.add_guild_user_xp(7, 10, 5).unwrap_err(), DataError::StoreUnavailable);
    assert_eq!(s.top_n_guild_user_xp(10, 3).unwrap_err(), DataError::StoreUnavailable);
    s.available = true;
    assert_eq!(s.get_guild(10).unwrap().guild_id, 10);
    assert!(s.users.is_empty());
}

#[test]
fn error_descriptions() {
    assert_eq!(DataError::NotFound.describe(), "not found");
    assert_eq!(DataError::Conflict.describe(), "already exists");
    assert_eq!(DataError::StoreUnavailable.describe(), "store unavailable");
}

#[test]
fn ceil_sqrt_exact_values() {
    assert_eq!(ceil_sqrt(1), 1);
    assert_eq!(ceil_sqrt(2), 2);
    assert_eq!(ceil_sqrt(4), 2);
    assert_eq!(ceil_sqrt(2500), 50);
    assert_eq!(ceil_sqrt(2501), 51);
    assert_eq!(ceil_sqrt(u32::MAX), 65536);
}

#[test]
fn xp_to_lvl_exact_values() {
    assert_eq!(xp_to_lvl(0), 0);
    assert_eq!(xp_to_lvl(99), 0);
    assert_eq!(xp_to_lvl(100), 0);
    assert_eq!(xp_to_lvl(149), 0);
    assert_eq!(xp_to_lvl(150), 1);
    assert_eq!(xp_to_lvl(500), 5);
    assert_eq!(xp_to_lvl(-5), 0);
}

#[test]
fn lvl_to_xp_exact_values() {
    assert_eq!(lvl_to_xp(0), 100);
    assert_eq!(lvl_to_xp(1), 155);
    assert_eq!(lvl_to_xp(5), 475);
}

#[test]
fn xp_to_next_lvl_exact_values() {
    assert_eq!(xp_to_next_lvl(0, 50), 50);
    assert_eq!(xp_to_next_lvl(1, 100), 10);
    assert_eq!(xp_to_next_lvl(2, 0), 130);
}
