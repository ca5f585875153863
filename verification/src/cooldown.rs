//! The cooldown tracker: suppresses XP grants that arrive within a
//! cooldown window of the previous grant for the same (user, guild) pair.
//!
//! `check_and_mark` is a single atomic test-and-set step: it either finds a
//! live marker and refuses, or plants a fresh marker and grants. A marker
//! is live at `now` while `now < marked_at + window_secs`; an expired
//! marker behaves as absent. The tracker may be capacity-bounded: planting
//! a marker into a full tracker evicts the least-recently-marked entry.
//! The tracker is independent of the entity store and the TTL cache.

use vstd::prelude::*;

verus! {

/// A marker: the pair was granted XP at `marked_at`.
#[derive(Clone, Copy, Debug, PartialEq, Eq, Structural)]
pub struct CooldownEntry {
    pub user_id: i64,
    pub guild_id: i64,
    /// When the pair was last granted XP.
    pub marked_at: u64,
}

/// Some entry in `es` carries the pair.
pub open spec fn cd_has(es: Seq<CooldownEntry>, user_id: i64, guild_id: i64) -> bool {
    exists|i: int|
        0 <= i < es.len() && es[i].user_id == user_id && es[i].guild_id == guild_id
}

/// The index of the pair's entry (unique when `cd_unique`).
pub open spec fn cd_ix(es: Seq<CooldownEntry>, user_id: i64, guild_id: i64) -> int {
    choose|i: int|
        0 <= i < es.len() && es[i].user_id == user_id && es[i].guild_id == guild_id
}

/// The pair's entry.
pub open spec fn cd_entry(es: Seq<CooldownEntry>, user_id: i64, guild_id: i64) -> CooldownEntry {
    es[cd_ix(es, user_id, guild_id)]
}

/// The pair's entry, if any.
pub open spec fn cd_lookup(es: Seq<CooldownEntry>, user_id: i64, guild_id: i64) -> Option<
    CooldownEntry,
> {
    if cd_has(es, user_id, guild_id) {
        Some(cd_entry(es, user_id, guild_id))
    } else {
        None
    }
}

/// A marker planted at `marked_at` is live at `now` while the window has
/// not elapsed.
pub open spec fn entry_live(e: CooldownEntry, window_secs: u64, now: u64) -> bool {
    (now as int) < e.marked_at + window_secs
}

/// The pair holds a live marker at `now`: a grant must be refused.
pub open spec fn on_cooldown(
    es: Seq<CooldownEntry>,
    window_secs: u64,
    user_id: i64,
    guild_id: i64,
    now: u64,
) -> bool {
    cd_has(es, user_id, guild_id) && entry_live(cd_entry(es, user_id, guild_id), window_secs, now)
}

/// No two entries carry the same pair.
pub open spec fn cd_unique(es: Seq<CooldownEntry>) -> bool {
    forall|i: int, j: int|
        0 <= i < es.len() && 0 <= j < es.len() && i != j
            ==> ((#[trigger] es[i]).user_id != (#[trigger] es[j]).user_id
                || es[i].guild_id != es[j].guild_id)
}

/// The entries after planting a fresh marker for the pair at `now`: a
/// full tracker first drops its front entry — the least recently marked —
/// and the fresh marker goes to the back.
pub open spec fn plant_rows(
    es: Seq<CooldownEntry>,
    capacity: Option<usize>,
    user_id: i64,
    guild_id: i64,
    now: u64,
) -> Seq<CooldownEntry> {
    let base = if capacity matches Some(c) && es.len() >= c {
        es.drop_first()
    } else {
        es
    };
    base.push(CooldownEntry { user_id, guild_id, marked_at: now })
}

/// The entries after a granting `check_and_mark` for the pair at `now`:
/// the pair's expired marker, if any, is dropped, and a fresh marker is
/// planted.
pub open spec fn mark_rows(
    es: Seq<CooldownEntry>,
    capacity: Option<usize>,
    user_id: i64,
    guild_id: i64,
    now: u64,
) -> Seq<CooldownEntry> {
    let cleared = if cd_has(es, user_id, guild_id) {
        es.remove(cd_ix(es, user_id, guild_id))
    } else {
        es
    };
    plant_rows(cleared, capacity, user_id, guild_id, now)
}

/// Under uniqueness, an index holding the pair is the index `cd_ix` picks.
pub proof fn lemma_cd_ix_is(es: Seq<CooldownEntry>, user_id: i64, guild_id: i64, i: int)
    requires
        cd_unique(es),
        0 <= i < es.len(),
        es[i].user_id == user_id,
        es[i].guild_id == guild_id,
    ensures
        cd_has(es, user_id, guild_id),
        cd_ix(es, user_id, guild_id) == i,
{
    assert(cd_has(es, user_id, guild_id));
    let j = cd_ix(es, user_id, guild_id);
    assert(0 <= j < es.len() && es[j].user_id == user_id && es[j].guild_id == guild_id);
}

/// Removing the entry at `i` erases exactly its pair; every other pair
/// resolves as before, and uniqueness carries over.
pub proof fn lemma_cd_remove(es: Seq<CooldownEntry>, i: int)
    requires
        cd_unique(es),
        0 <= i < es.len(),
    ensures
        cd_unique(es.remove(i)),
        !cd_has(es.remove(i), es[i].user_id, es[i].guild_id),
        forall|u2: i64, g2: i64|
            !(u2 == es[i].user_id && g2 == es[i].guild_id)
                ==> #[trigger] cd_lookup(es.remove(i), u2, g2) == cd_lookup(es, u2, g2),
{
    let es2 = es.remove(i);
    es.remove_ensures(i);
    assert forall|a: int, b: int|
        0 <= a < es2.len() && 0 <= b < es2.len() && a != b implies ((#[trigger] es2[a]).user_id
        != (#[trigger] es2[b]).user_id || es2[a].guild_id != es2[b].guild_id) by {
        let a0 = if a < i { a } else { a + 1 };
        let b0 = if b < i { b } else { b + 1 };
        assert(es2[a] == es[a0]);
        assert(es2[b] == es[b0]);
    }
    assert forall|j: int| 0 <= j < es2.len() implies !((#[trigger] es2[j]).user_id == es[i].user_id
        && es2[j].guild_id == es[i].guild_id) by {
        let j0 = if j < i { j } else { j + 1 };
        assert(es2[j] == es[j0]);
    }
    assert forall|u2: i64, g2: i64| !(u2 == es[i].user_id && g2 == es[i].guild_id)
        implies #[trigger] cd_lookup(es2, u2, g2) == cd_lookup(es, u2, g2) by {
        if cd_has(es, u2, g2) {
            let j0 = cd_ix(es, u2, g2);
            assert(0 <= j0 < es.len() && es[j0].user_id == u2 && es[j0].guild_id == g2);
            let j2 = if j0 < i { j0 } else { j0 - 1 };
            assert(es2[j2] == es[j0]);
            lemma_cd_ix_is(es2, u2, g2, j2);
            lemma_cd_ix_is(es, u2, g2, j0);
        } else {
            if cd_has(es2, u2, g2) {
                let j2 = cd_ix(es2, u2, g2);
                let j0 = if j2 < i { j2 } else { j2 + 1 };
                assert(es2[j2] == es[j0]);
                assert(cd_has(es, u2, g2));
            }
        }
    }
}

/// Tracks the last XP grant per (user, guild) pair, in mark order: the
/// entry at the front carries the least recent mark.
pub struct CooldownTracker {
    /// Markers, least recently marked first; at most one per pair.
    pub entries: Vec<CooldownEntry>,
    /// The cooldown window, in seconds.
    pub window_secs: u64,
    /// Maximum number of tracked pairs, if bounded; at least 1.
    pub capacity: Option<usize>,
}

impl CooldownTracker {
    /// Well-formedness: unique pairs, and the capacity bound respected.
    pub open spec fn wf(&self) -> bool {
        &&& cd_unique(self.entries@)
        &&& (self.capacity matches Some(c) ==> c >= 1 && self.entries@.len() <= c)
    }

    /// An empty, unbounded tracker with the given window.
    pub fn new(window_secs: u64) -> (t: CooldownTracker)
        ensures
            t.wf(),
            t.entries@ =~= Seq::<CooldownEntry>::empty(),
            t.window_secs == window_secs,
            t.capacity is None,
    {
        CooldownTracker { entries: Vec::new(), window_secs, capacity: None }
    }

    /// An empty tracker bounded to `capacity` pairs.
    pub fn with_capacity(window_secs: u64, capacity: usize) -> (t: CooldownTracker)
        requires
            capacity >= 1,
        ensures
            t.wf(),
            t.entries@ =~= Seq::<CooldownEntry>::empty(),
            t.window_secs == window_secs,
            t.capacity == Some(capacity),
    {
        CooldownTracker { entries: Vec::new(), window_secs, capacity: Some(capacity) }
    }

    /// Atomically test and mark: if the pair holds a live marker, refuse
    /// (returning false) without touching it; otherwise plant a marker at
    /// `now` — evicting the least-recently-marked entry if the tracker is
    /// full — and grant (returning true).
    pub fn check_and_mark(&mut self, user_id: i64, guild_id: i64, now: u64) -> (granted: bool)
        requires
            old(self).wf(),
        ensures
            final(self).wf(),
            final(self).window_secs == old(self).window_secs,
            final(self).capacity == old(self).capacity,
            granted == !on_cooldown(
                old(self).entries@,
                old(self).window_secs,
                user_id,
                guild_id,
                now,
            ),
            !granted ==> final(self).entries@ == old(self).entries@,
            granted ==> {
                &&& final(self).entries@ == mark_rows(
                    old(self).entries@,
                    old(self).capacity,
                    user_id,
                    guild_id,
                    now,
                )
                &&& cd_has(final(self).entries@, user_id, guild_id)
                &&& cd_entry(final(self).entries@, user_id, guild_id).marked_at == now
                &&& forall|u2: i64, g2: i64|
                    !(u2 == user_id && g2 == guild_id) ==> (#[trigger] on_cooldown(
                        final(self).entries@,
                        old(self).window_secs,
                        u2,
                        g2,
                        now,
                    ) ==> on_cooldown(old(self).entries@, old(self).window_secs, u2, g2, now))
            },
    {
        match find_pair(&self.entries, user_id, guild_id) {
            Some(i) => {
                proof {
                    lemma_cd_ix_is(self.entries@, user_id, guild_id, i as int);
                }
                let e = self.entries[i];
                let live: bool = match e.marked_at.checked_add(self.window_secs) {
                    Some(expiry) => now < expiry,
                    None => true,
                };
                if live {
                    return false;
                }
                proof {
                    lemma_cd_remove(self.entries@, i as int);
                }
                self.entries.remove(i);
                self.plant(user_id, guild_id, now);
                true
            },
            None => {
                self.plant(user_id, guild_id, now);
                true
            },
        }
    }

    /// Plant a fresh marker for a pair that holds none, evicting the
    /// least-recently-marked entry if the tracker is full.
    fn plant(&mut self, user_id: i64, guild_id: i64, now: u64)
        requires
            old(self).wf(),
            !cd_has(old(self).entries@, user_id, guild_id),
        ensures
            final(self).wf(),
            final(self).window_secs == old(self).window_secs,
            final(self).capacity == old(self).capacity,
            final(self).entries@ == plant_rows(
                old(self).entries@,
                old(self).capacity,
                user_id,
                guild_id,
                now,
            ),
            cd_has(final(self).entries@, user_id, guild_id),
            cd_entry(final(self).entries@, user_id, guild_id).marked_at == now,
            forall|u2: i64, g2: i64|
                !(u2 == user_id && g2 == guild_id) ==> (#[trigger] cd_has(
                    final(self).entries@,
                    u2,
                    g2,
                ) ==> cd_has(old(self).entries@, u2, g2)
                    && cd_lookup(final(self).entries@, u2, g2) == cd_lookup(
                    old(self).entries@,
                    u2,
                    g2,
                )),
            old(self).capacity is None ==> forall|u2: i64, g2: i64|
                !(u2 == user_id && g2 == guild_id) ==> #[trigger] cd_lookup(
                    final(self).entries@,
                    u2,
                    g2,
                ) == cd_lookup(old(self).entries@, u2, g2),
    {
        let needs_evict: bool = match self.capacity {
            Some(cap) => self.entries.len() >= cap,
            None => false,
        };
        if needs_evict {
            proof {
                lemma_cd_remove(self.entries@, 0);
                assert(self.entries@.remove(0) =~= self.entries@.drop_first());
            }
            self.entries.remove(0);
        }
        let ghost mid = self.entries@;
        self.entries.push(CooldownEntry { user_id, guild_id, marked_at: now });
        proof {
            let es = self.entries@;
            assert(es[es.len() - 1].user_id == user_id);
            assert forall|a: int, b: int|
                0 <= a < es.len() && 0 <= b < es.len() && a != b implies ((#[trigger] es[a]).user_id
                != (#[trigger] es[b]).user_id || es[a].guild_id != es[b].guild_id) by {
                if a < es.len() - 1 && b < es.len() - 1 {
                    assert(es[a] == mid[a]);
                    assert(es[b] == mid[b]);
                }
            }
            lemma_cd_ix_is(es, user_id, guild_id, es.len() - 1);
            assert forall|u2: i64, g2: i64| !(u2 == user_id && g2 == guild_id) implies (
            #[trigger] cd_lookup(es, u2, g2) == cd_lookup(mid, u2, g2)) by {
                if cd_has(mid, u2, g2) {
                    let j = cd_ix(mid, u2, g2);
                    assert(es[j] == mid[j]);
                    lemma_cd_ix_is(es, u2, g2, j);
                    lemma_cd_ix_is(mid, u2, g2, j);
                } else {
                    if cd_has(es, u2, g2) {
                        let j = cd_ix(es, u2, g2);
                        assert(j < es.len() - 1);
                        assert(es[j] == mid[j]);
                        assert(cd_has(mid, u2, g2));
                    }
                }
            }
        }
    }
}

/// Index of the pair's entry, if any.
fn find_pair(es: &Vec<CooldownEntry>, user_id: i64, guild_id: i64) -> (r: Option<usize>)
    ensures
        match r {
            Some(i) => 0 <= i < es@.len() && es@[i as int].user_id == user_id
                && es@[i as int].guild_id == guild_id,
            None => !cd_has(es@, user_id, guild_id),
        },
        r is Some <==> cd_has(es@, user_id, guild_id),
{
    let mut i: usize = 0;
    while i < es.len()
        invariant
            0 <= i <= es@.len(),
            forall|j: int| 0 <= j < i
                ==> !((#[trigger] es@[j]).user_id == user_id && es@[j].guild_id == guild_id),
        decreases es@.len() - i,
    {
        if es[i].user_id == user_id && es[i].guild_id == guild_id {
            return Some(i);
        }
        i += 1;
    }
    None
}

/// Within the cooldown window of a mark at `t`, the pair is on cooldown:
/// a second `check_and_mark` before `t + window_secs` refuses the grant.
pub proof fn law_cooldown_blocks_within_window(
    es: Seq<CooldownEntry>,
    window_secs: u64,
    user_id: i64,
    guild_id: i64,
    t: u64,
    now2: u64,
)
    requires
        cd_has(es, user_id, guild_id),
        cd_entry(es, user_id, guild_id).marked_at == t,
        (now2 as int) < t + window_secs,
    ensures
        on_cooldown(es, window_secs, user_id, guild_id, now2),
{
}

/// Once the cooldown window of a mark at `t` has elapsed, the pair is no
/// longer on cooldown: the next `check_and_mark` grants again.
pub proof fn law_cooldown_expires_after_window(
    es: Seq<CooldownEntry>,
    window_secs: u64,
    user_id: i64,
    guild_id: i64,
    t: u64,
    now2: u64,
)
    requires
        cd_lookup(es, user_id, guild_id) matches Some(e) ==> e.marked_at == t,
        (now2 as int) >= t + window_secs,
    ensures
        !on_cooldown(es, window_secs, user_id, guild_id, now2),
{
}

} // verus!
