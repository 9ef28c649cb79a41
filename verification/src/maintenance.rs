//! The maintenance scheduler's per-tick logic.
//!
//! Independently of request traffic, each tick computes "now", purges every
//! record whose expiration timestamp has passed in one storage operation,
//! and reports how many records went. A failed tick is abandoned — the
//! scheduler waits for the next interval instead of retrying immediately —
//! so the purge below is the whole decision a tick makes.
use vstd::prelude::*;

use crate::store::Store;

verus! {

/// The eligibility predicate: a record is purged exactly when it has an
/// expiration timestamp and that timestamp is at or before the tick's
/// "now". A record with no expiration timestamp is never eligible.
pub open spec fn eligible(expires: Option<i64>, now: i64) -> bool {
    match expires {
        Some(t) => t <= now,
        None => false,
    }
}

/// The store after one maintenance tick at time `now`: exactly the
/// non-eligible records remain, each unchanged.
pub open spec fn purge(
    s: Map<Seq<char>, (u64, Option<i64>)>,
    now: i64,
) -> Map<Seq<char>, (u64, Option<i64>)> {
    Map::new(|k: Seq<char>| s.contains_key(k) && !eligible(s[k].1, now), |k: Seq<char>| s[k])
}

/// One maintenance tick: delete every expired record in one storage
/// operation and return how many records were deleted. Concurrent
/// hit-recording for a deleted key is tolerated downstream: the flush
/// discards the pending increment for a key the store no longer holds.
pub fn run_tick(store: &mut Store, now: i64) -> (n: usize)
    requires
        old(store).wf(),
    ensures
        final(store).wf(),
        final(store)@ == purge(old(store)@, now),
        n == old(store)@.dom().len() - final(store)@.dom().len(),
{
    store.delete_expired(now)
}

/// A record whose expiration timestamp `t` has passed is deleted by the
/// first tick whose "now" is at or past `t`, and is absent from storage
/// afterward.
pub proof fn lemma_expired_record_deleted(
    s: Map<Seq<char>, (u64, Option<i64>)>,
    k: Seq<char>,
    t: i64,
    now: i64,
)
    requires
        s.contains_key(k),
        s[k].1 == Some(t),
        t <= now,
    ensures
        !purge(s, now).contains_key(k),
{
}

/// A record whose expiration timestamp `t` is still in the future survives
/// a tick at `now`, unchanged.
pub proof fn lemma_unexpired_record_kept(
    s: Map<Seq<char>, (u64, Option<i64>)>,
    k: Seq<char>,
    t: i64,
    now: i64,
)
    requires
        s.contains_key(k),
        s[k].1 == Some(t),
        now < t,
    ensures
        purge(s, now).contains_key(k),
        purge(s, now)[k] == s[k],
{
}

/// A record with no expiration timestamp is never deleted by the
/// maintenance scheduler, whatever the tick time and however many ticks
/// run.
pub proof fn lemma_no_expiry_never_deleted(
    s: Map<Seq<char>, (u64, Option<i64>)>,
    k: Seq<char>,
    now: i64,
)
    requires
        s.contains_key(k),
        s[k].1 is None,
    ensures
        purge(s, now).contains_key(k),
        purge(s, now)[k] == s[k],
{
}

} // verus!
