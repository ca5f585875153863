//! Cooldown tracking and the message XP-grant flow.

use free6::XP_TIMEOUT_SECS;
use free6::coherence::Database;
use free6::coherence::XpGrantOutcome;
use free6::coherence::message_xp_grant;
use free6::cooldown::CooldownTracker;
use free6::errors::DataError;

#[test]
fn second_check_within_window_is_on_cooldown() {
    let mut t = CooldownTracker::new(60);
    assert!(t.check_and_mark(7, 10, 1000), "first call grants");
    assert!(!t.check_and_mark(7, 10, 1030), "second call within the window refuses");
    assert!(!t.check_and_mark(7, 10, 1059), "still refused at the last second");
    assert!(t.check_and_mark(7, 10, 1060), "grants again once the window has elapsed");
}

#[test]
fn refusal_does_not_reset_the_expiry() {
    let mut t = CooldownTracker::new(60);
    assert!(t.check_and_mark(7, 10, 1000));
    assert!(!t.check_and_mark(7, 10, 1059));
    // Had the refused call re-marked at 1059, this would still be on
    // cooldown; the mark planted at 1000 has expired.
    assert!(t.check_and_mark(7, 10, 1061));
}

#[test]
fn pairs_cool_down_independently() {
    let mut t = CooldownTracker::new(60);
    assert!(t.check_and_mark(7, 10, 1000));
    assert!(t.check_and_mark(8, 10, 1000), "another user in the same guild");
    assert!(t.check_and_mark(7, 11, 1000), "the same user in another guild");
    assert!(!t.check_and_mark(7, 10, 1001));
}

#[test]
fn full_tracker_evicts_the_least_recently_marked_pair() {
    let mut t = CooldownTracker::with_capacity(60, 2);
    assert!(t.check_and_mark(1, 10, 1000));
    assert!(t.check_and_mark(2, 10, 1001));
    assert!(t.check_and_mark(3, 10, 1002), "eviction never blocks the mark");
    assert_eq!(t.entries.len(), 2);
    assert!(t.check_and_mark(1, 10, 1003), "the oldest mark was evicted");
    assert!(!t.check_and_mark(3, 10, 1003), "the newer marks survived");
}

#[test]
fn message_grant_accumulates_and_reports_levels() {
    let mut db = Database::new();
    let mut t = CooldownTracker::new(XP_TIMEOUT_SECS);
    match message_xp_grant(&mut db, &mut t, 7, 10, 20, 1000) {
        XpGrantOutcome::Granted { user, prev_level, new_level } => {
            assert_eq!(user.xp, 20);
            assert_eq!(prev_level, 0);
            assert_eq!(new_level, 0);
        },
        other => panic!("expected a grant, got {:?}", other),
    }
    assert_eq!(
        message_xp_grant(&mut db, &mut t, 7, 10, 25, 1030),
        XpGrantOutcome::OnCooldown,
        "a second message within the window grants nothing",
    );
    assert_eq!(db.get_guild_user(7, 10, 1031).unwrap().xp, 20);
    match message_xp_grant(&mut db, &mut t, 7, 10, 130, 1060) {
        XpGrantOutcome::Granted { user, prev_level, new_level } => {
            assert_eq!(user.xp, 150);
            assert_eq!(prev_level, 0);
            assert_eq!(new_level, 1, "crossing 150 XP reaches level 1");
        },
        other => panic!("expected a grant, got {:?}", other),
    }
}

#[test]
fn message_grant_failure_still_marks_the_cooldown() {
    let mut db = Database::new();
    let mut t = CooldownTracker::new(XP_TIMEOUT_SECS);
    db.store.available = false;
    assert_eq!(
        message_xp_grant(&mut db, &mut t, 7, 10, 20, 1000),
        XpGrantOutcome::Failed(DataError::StoreUnavailable),
    );
    db.store.available = true;
    assert_eq!(
        message_xp_grant(&mut db, &mut t, 7, 10, 20, 1001),
        XpGrantOutcome::OnCooldown,
        "the failed grant already marked the pair",
    );
    assert_eq!(db.get_guild_user(7, 10, 1002).unwrap_err(), DataError::NotFound);
}
