//! The hit-aggregation engine.
//!
//! Request handlers record one increment per successful record access;
//! the counter keeps an in-memory map from record key to pending count and
//! a periodic flush persists the whole batch in one storage write. A failed
//! flush re-merges its batch into the live map, so the increments are
//! retried on the next cycle and no count is lost or applied twice.
use vstd::prelude::*;

use crate::store::apply_batch;
use crate::store::Store;

verus! {

/// The pending-count map described by an association list of record keys and
/// counts: later entries win, though the lists used here never repeat a key.
pub open spec fn pending_map(s: Seq<(String, u64)>) -> Map<Seq<char>, u64>
    decreases s.len(),
{
    if s.len() == 0 {
        Map::empty()
    } else {
        pending_map(s.drop_last()).insert(s.last().0@, s.last().1)
    }
}

/// No two entries of the list name the same record key.
pub open spec fn entry_keys_distinct(s: Seq<(String, u64)>) -> bool {
    forall|i: int, j: int| 0 <= i < j < s.len() ==> s[i].0@ != s[j].0@
}

/// A well-formed flush batch: no key repeats and every count is positive,
/// since an entry is removed, not zeroed, once flushed.
pub open spec fn wf_batch(s: Seq<(String, u64)>) -> bool {
    &&& entry_keys_distinct(s)
    &&& forall|i: int| 0 <= i < s.len() ==> s[i].1 >= 1
}

/// The pending count of key `k` in map `m`; a key without an entry has
/// count zero.
pub open spec fn count_of(m: Map<Seq<char>, u64>, k: Seq<char>) -> int {
    if m.contains_key(k) {
        m[k] as int
    } else {
        0
    }
}

/// The pending map after one hit on key `k`.
pub open spec fn bump(m: Map<Seq<char>, u64>, k: Seq<char>) -> Map<Seq<char>, u64> {
    m.insert(k, (count_of(m, k) + 1) as u64)
}

/// The pending map after `n` hits on key `k`.
pub open spec fn bump_n(m: Map<Seq<char>, u64>, k: Seq<char>, n: nat) -> Map<Seq<char>, u64>
    decreases n,
{
    if n == 0 {
        m
    } else {
        bump(bump_n(m, k, (n - 1) as nat), k)
    }
}

/// The pending map after a failed flush re-merges batch `b` into the live
/// map `m`: the counts add, key by key.
pub open spec fn merged(m: Map<Seq<char>, u64>, b: Map<Seq<char>, u64>) -> Map<Seq<char>, u64> {
    Map::new(
        |k: Seq<char>| m.contains_key(k) || b.contains_key(k),
        |k: Seq<char>| (count_of(m, k) + count_of(b, k)) as u64,
    )
}

/// Whether the key `k` occurs in a list of owned key strings.
pub open spec fn has_key_str(s: Seq<String>, k: Seq<char>) -> bool {
    exists|i: int| 0 <= i < s.len() && s[i]@ == k
}

/// Appending a key to a key list makes it findable, and disturbs no other.
pub proof fn lemma_has_key_str_push(s: Seq<String>, x: String, k: Seq<char>)
    ensures
        has_key_str(s.push(x), k) <==> (has_key_str(s, k) || x@ == k),
{
    if has_key_str(s, k) {
        let i = choose|i: int| 0 <= i < s.len() && s[i]@ == k;
        assert(s.push(x)[i]@ == k);
    }
    if x@ == k {
        assert(s.push(x)[s.len() as int]@ == k);
    }
    if has_key_str(s.push(x), k) {
        let i = choose|i: int| 0 <= i < s.push(x).len() && s.push(x)[i]@ == k;
        if i < s.len() {
            assert(s[i]@ == k);
        }
    }
}

/// A key is in the pending map exactly when some entry of the list names it.
pub proof fn lemma_pending_map_contains(s: Seq<(String, u64)>, k: Seq<char>)
    ensures
        pending_map(s).contains_key(k) <==> (exists|i: int| 0 <= i < s.len() && s[i].0@ == k),
    decreases s.len(),
{
    if s.len() > 0 {
        lemma_pending_map_contains(s.drop_last(), k);
        if s.last().0@ == k {
            assert(s[s.len() - 1].0@ == k);
        } else {
            if exists|i: int| 0 <= i < s.len() && s[i].0@ == k {
                let i = choose|i: int| 0 <= i < s.len() && s[i].0@ == k;
                assert(i < s.len() - 1);
                assert(s.drop_last()[i].0@ == k);
            }
        }
    }
}

/// With distinct keys, the pending map gives each entry its own count.
pub proof fn lemma_pending_map_value(s: Seq<(String, u64)>, i: int)
    requires
        entry_keys_distinct(s),
        0 <= i < s.len(),
    ensures
        pending_map(s).contains_key(s[i].0@),
        pending_map(s)[s[i].0@] == s[i].1,
    decreases s.len(),
{
    if i < s.len() - 1 {
        lemma_pending_map_value(s.drop_last(), i);
        assert(s.drop_last()[i] == s[i]);
        assert(s.last().0@ != s[i].0@);
    }
}

/// Replacing the entry at `i` with a pair naming the same key updates the
/// pending map at that key alone.
pub proof fn lemma_pending_map_update(s: Seq<(String, u64)>, i: int, p: (String, u64))
    requires
        entry_keys_distinct(s),
        0 <= i < s.len(),
        p.0@ == s[i].0@,
    ensures
        pending_map(s.update(i, p)) == pending_map(s).insert(p.0@, p.1),
    decreases s.len(),
{
    let t = s.update(i, p);
    if i == s.len() - 1 {
        assert(t.drop_last() =~= s.drop_last());
        assert(t.last() == p);
        assert(pending_map(s).insert(p.0@, p.1) =~= pending_map(s.drop_last()).insert(
            p.0@,
            p.1,
        ));
    } else {
        lemma_pending_map_update(s.drop_last(), i, p);
        assert(t.drop_last() =~= s.drop_last().update(i, p));
        assert(t.last() == s.last());
        assert(s.last().0@ != p.0@);
        assert(pending_map(s.drop_last()).insert(p.0@, p.1).insert(s.last().0@, s.last().1)
            =~= pending_map(s.drop_last()).insert(s.last().0@, s.last().1).insert(p.0@, p.1));
    }
}

/// Appending an entry inserts its key into the pending map.
pub proof fn lemma_pending_map_push(s: Seq<(String, u64)>, p: (String, u64))
    ensures
        pending_map(s.push(p)) == pending_map(s).insert(p.0@, p.1),
{
    assert(s.push(p).drop_last() =~= s);
}

/// The in-memory accumulator of not-yet-persisted hit counts, exclusively
/// owned by the aggregator between flush cycles.
pub struct ResponseCounter {
    entries: Vec<(String, u64)>,
}

impl ResponseCounter {
    /// The pending-increment map: record key to pending count. A key is in
    /// the map exactly while it has unflushed hits.
    pub closed spec fn view(&self) -> Map<Seq<char>, u64> {
        pending_map(self.entries@)
    }

    /// Internal well-formedness: keys are unique and every stored count is
    /// positive.
    pub closed spec fn wf(&self) -> bool {
        wf_batch(self.entries@)
    }

    /// A fresh counter with nothing pending.
    pub fn new() -> (r: Self)
        ensures
            r.wf(),
            r@ == Map::<Seq<char>, u64>::empty(),
    {
        ResponseCounter { entries: Vec::new() }
    }

    /// The pending count for one key.
    pub fn pending(&self, key: &str) -> (r: u64)
        requires
            self.wf(),
        ensures
            r as int == count_of(self@, key@),
    {
        let key_s = key.to_owned();
        let n = self.entries.len();
        let mut i: usize = 0;
        while i < n
            invariant
                self.wf(),
                key_s@ == key@,
                n == self.entries.len(),
                i <= n,
                forall|j: int| 0 <= j < i ==> self.entries@[j].0@ != key@,
            decreases n - i,
        {
            if self.entries[i].0 == key_s {
                proof {
                    lemma_pending_map_value(self.entries@, i as int);
                }
                return self.entries[i].1;
            }
            i += 1;
        }
        proof {
            lemma_pending_map_contains(self.entries@, key@);
        }
        0
    }

    /// Add `c` to the pending count of `key`, creating the entry if absent.
    fn add_count(&mut self, key: String, c: u64)
        requires
            old(self).wf(),
            c >= 1,
            count_of(old(self)@, key@) + c <= u64::MAX,
        ensures
            final(self).wf(),
            final(self)@ == old(self)@.insert(key@, (count_of(old(self)@, key@) + c) as u64),
    {
        let n = self.entries.len();
        let mut i: usize = 0;
        while i < n
            invariant
                self.wf(),
                *self == *old(self),
                c >= 1,
                count_of(old(self)@, key@) + c <= u64::MAX,
                n == self.entries.len(),
                i <= n,
                forall|j: int| 0 <= j < i ==> self.entries@[j].0@ != key@,
            decreases n - i,
        {
            if self.entries[i].0 == key {
                proof {
                    lemma_pending_map_value(self.entries@, i as int);
                }
                let prev = self.entries[i].1;
                let p = (key, prev + c);
                proof {
                    lemma_pending_map_update(self.entries@, i as int, p);
                }
                self.entries.set(i, p);
                return ;
            }
            i += 1;
        }
        proof {
            lemma_pending_map_contains(self.entries@, key@);
            lemma_pending_map_push(self.entries@, (key, c));
        }
        self.entries.push((key, c));
    }

    /// Record one hit for `key`: the request-path entry point. It touches
    /// only the in-memory map — no storage write happens here — so the
    /// persisted counter lags by at most the pending count until the next
    /// flush.
    pub fn record_hit(&mut self, key: &str)
        requires
            old(self).wf(),
            count_of(old(self)@, key@) < u64::MAX,
        ensures
            final(self).wf(),
            final(self)@ == bump(old(self)@, key@),
    {
        self.add_count(key.to_owned(), 1);
    }

    /// Take a point-in-time snapshot of the pending map and clear it: the
    /// flush batch. Snapshot and clear happen in one step, so a hit arriving
    /// after the snapshot lands in the emptied map and is never lost.
    pub fn take_batch(&mut self) -> (b: Vec<(String, u64)>)
        requires
            old(self).wf(),
        ensures
            final(self).wf(),
            final(self)@ == Map::<Seq<char>, u64>::empty(),
            wf_batch(b@),
            pending_map(b@) == old(self)@,
    {
        let mut b: Vec<(String, u64)> = Vec::new();
        core::mem::swap(&mut b, &mut self.entries);
        b
    }

    /// Re-merge a batch whose storage write failed back into the live map,
    /// adding count to count, so the next cycle retries the same increments.
    pub fn merge_batch(&mut self, batch: Vec<(String, u64)>)
        requires
            old(self).wf(),
            wf_batch(batch@),
            forall|k: Seq<char>|
                count_of(old(self)@, k) + count_of(pending_map(batch@), k) <= u64::MAX,
        ensures
            final(self).wf(),
            final(self)@ == merged(old(self)@, pending_map(batch@)),
    {
        let n = batch.len();
        let mut j: usize = 0;
        while j < n
            invariant
                self.wf(),
                wf_batch(batch@),
                n == batch.len(),
                j <= n,
                forall|k: Seq<char>|
                    count_of(old(self)@, k) + count_of(pending_map(batch@), k) <= u64::MAX,
                self@ == merged(old(self)@, pending_map(batch@.take(j as int))),
            decreases n - j,
        {
            let ghost prefix = batch@.take(j as int);
            let key = batch[j].0.clone();
            let c = batch[j].1;
            proof {
                lemma_pending_map_contains(prefix, key@);
                assert(forall|i: int| 0 <= i < prefix.len() ==> prefix[i] == batch@[i]);
                assert(!pending_map(prefix).contains_key(key@));
                lemma_pending_map_value(batch@, j as int);
                assert(count_of(pending_map(batch@), key@) == c);
            }
            self.add_count(key, c);
            proof {
                let step = batch@.take(j + 1);
                assert(step =~= prefix.push(batch@[j as int]));
                lemma_pending_map_push(prefix, batch@[j as int]);
                assert(pending_map(step) == pending_map(prefix).insert(key@, c));
                assert(self@ =~= merged(old(self)@, pending_map(step)));
            }
            j += 1;
        }
        proof {
            assert(batch@.take(n as int) =~= batch@);
        }
    }
}

/// Repeated hits accumulate: `n` hits on key `k` raise its pending count by
/// exactly `n` and touch no other key.
pub proof fn lemma_bump_n_counts(m: Map<Seq<char>, u64>, k: Seq<char>, n: nat)
    requires
        count_of(m, k) + n <= u64::MAX,
    ensures
        n > 0 ==> bump_n(m, k, n).contains_key(k),
        count_of(bump_n(m, k, n), k) == count_of(m, k) + n,
        forall|k2: Seq<char>|
            k2 != k ==> count_of(#[trigger] bump_n(m, k, n), k2) == count_of(m, k2),
        forall|k2: Seq<char>|
            k2 != k ==> #[trigger] bump_n(m, k, n).contains_key(k2) == m.contains_key(k2),
    decreases n,
{
    if n > 0 {
        lemma_bump_n_counts(m, k, (n - 1) as nat);
    }
}

/// For a sequence of `n` `record_hit(k)` calls followed by one flush, the
/// persisted counter for `k` increases by exactly `n` plus whatever was
/// already pending — no increment lost, none applied twice — and the
/// record's expiration is untouched.
pub proof fn lemma_hits_then_flush(
    s: Map<Seq<char>, (u64, Option<i64>)>,
    m: Map<Seq<char>, u64>,
    k: Seq<char>,
    n: nat,
)
    requires
        s.contains_key(k),
        count_of(m, k) + n <= u64::MAX,
        s[k].0 + count_of(m, k) + n <= u64::MAX,
    ensures
        apply_batch(s, bump_n(m, k, n)).contains_key(k),
        apply_batch(s, bump_n(m, k, n))[k].0 == s[k].0 + count_of(m, k) + n,
        apply_batch(s, bump_n(m, k, n))[k].1 == s[k].1,
{
    lemma_bump_n_counts(m, k, n);
}

/// Flush is at-least-once and increment-idempotent: a flush whose storage
/// write failed leaves the store untouched, and re-merging the snapshot
/// into the emptied live map restores exactly the snapshotted counts, so
/// the retried flush persists the same state a single successful flush
/// would have.
pub proof fn lemma_failed_flush_retry(
    s: Map<Seq<char>, (u64, Option<i64>)>,
    m: Map<Seq<char>, u64>,
)
    ensures
        merged(Map::<Seq<char>, u64>::empty(), m) == m,
        apply_batch(s, merged(Map::<Seq<char>, u64>::empty(), m)) == apply_batch(s, m),
{
    assert(merged(Map::<Seq<char>, u64>::empty(), m) =~= m);
}

/// Re-merging a failed batch into a live map that has meanwhile collected
/// new hits adds count to count, key by key, so the next cycle flushes the
/// sum and no increment is lost or duplicated.
pub proof fn lemma_remerge_accumulates(
    m: Map<Seq<char>, u64>,
    b: Map<Seq<char>, u64>,
    k: Seq<char>,
)
    requires
        count_of(m, k) + count_of(b, k) <= u64::MAX,
    ensures
        count_of(merged(m, b), k) == count_of(m, k) + count_of(b, k),
{
}

/// Shutdown drains pending increments: with a pending count of `p` for key
/// `k` at shutdown time, the final flush leaves the persisted counter
/// raised by exactly `p`, before the process lifecycle completes.
pub proof fn lemma_shutdown_drain(
    s: Map<Seq<char>, (u64, Option<i64>)>,
    m: Map<Seq<char>, u64>,
    k: Seq<char>,
)
    requires
        s.contains_key(k),
        s[k].0 + count_of(m, k) <= u64::MAX,
    ensures
        apply_batch(s, m).contains_key(k),
        apply_batch(s, m)[k].0 == s[k].0 + count_of(m, k),
        apply_batch(s, m)[k].1 == s[k].1,
{
}

/// Persist one flush batch: one atomic increment-by-count per key, never an
/// overwrite, so hits arriving during the flush are neither lost nor applied
/// twice. A key that storage no longer holds — deleted by maintenance while
/// its hits were pending — is a non-fatal condition: its increment is
/// discarded and the key is returned for logging.
pub fn flush_batch_into(store: &mut Store, batch: &Vec<(String, u64)>) -> (missing: Vec<String>)
    requires
        old(store).wf(),
        wf_batch(batch@),
        forall|k: Seq<char>| #[trigger]
            old(store)@.contains_key(k) ==> old(store)@[k].0 + count_of(pending_map(batch@), k)
                <= u64::MAX,
    ensures
        final(store).wf(),
        final(store)@ == apply_batch(old(store)@, pending_map(batch@)),
        forall|k: Seq<char>|
            #![trigger has_key_str(missing@, k)]
            has_key_str(missing@, k) <==> (pending_map(batch@).contains_key(k) && !old(
                store,
            )@.contains_key(k)),
{
    let n = batch.len();
    let mut missing: Vec<String> = Vec::new();
    let mut j: usize = 0;
    while j < n
        invariant
            store.wf(),
            wf_batch(batch@),
            n == batch.len(),
            j <= n,
            forall|k: Seq<char>| #[trigger]
                old(store)@.contains_key(k) ==> old(store)@[k].0 + count_of(
                    pending_map(batch@),
                    k,
                ) <= u64::MAX,
            store@ == apply_batch(old(store)@, pending_map(batch@.take(j as int))),
            forall|k: Seq<char>|
                #![trigger has_key_str(missing@, k)]
                has_key_str(missing@, k) <==> (pending_map(batch@.take(j as int)).contains_key(k)
                    && !old(store)@.contains_key(k)),
        decreases n - j,
    {
        let ghost prefix = batch@.take(j as int);
        let key = &batch[j].0;
        let c = batch[j].1;
        proof {
            lemma_pending_map_contains(prefix, key@);
            assert(forall|i: int| 0 <= i < prefix.len() ==> prefix[i] == batch@[i]);
            assert(!pending_map(prefix).contains_key(key@));
            lemma_pending_map_value(batch@, j as int);
            assert(count_of(pending_map(batch@), key@) == c);
            if old(store)@.contains_key(key@) {
                assert(store@[key@].0 == old(store)@[key@].0);
            }
        }
        let ghost pre_missing = missing@;
        let found = store.increment_counter(key.as_str(), c);
        if !found {
            missing.push(key.clone());
        }
        proof {
            let step = batch@.take(j + 1);
            assert(step =~= prefix.push(batch@[j as int]));
            lemma_pending_map_push(prefix, batch@[j as int]);
            assert(pending_map(step) == pending_map(prefix).insert(key@, c));
            assert(store@ =~= apply_batch(old(store)@, pending_map(step)));
            if found {
                assert forall|k: Seq<char>|
                    has_key_str(missing@, k) <==> (pending_map(step).contains_key(k) && !old(
                        store,
                    )@.contains_key(k)) by {
                    if k != key@ {
                        assert(pending_map(step).contains_key(k) == pending_map(
                            prefix,
                        ).contains_key(k));
                    }
                }
            } else {
                assert forall|k: Seq<char>|
                    has_key_str(missing@, k) <==> (pending_map(step).contains_key(k) && !old(
                        store,
                    )@.contains_key(k)) by {
                    lemma_has_key_str_push(pre_missing, missing@.last(), k);
                    if k != key@ {
                        assert(pending_map(step).contains_key(k) == pending_map(
                            prefix,
                        ).contains_key(k));
                    }
                }
            }
        }
        j += 1;
    }
    proof {
        assert(batch@.take(n as int) =~= batch@);
    }
    missing
}

/// One flush cycle: snapshot-and-clear the pending map, then persist the
/// batch in one storage write. Also the shutdown drain: a final call
/// persists every pending increment before the process ends.
pub fn run_flush(counter: &mut ResponseCounter, store: &mut Store) -> (missing: Vec<String>)
    requires
        old(counter).wf(),
        old(store).wf(),
        forall|k: Seq<char>| #[trigger]
            old(store)@.contains_key(k) ==> old(store)@[k].0 + count_of(old(counter)@, k)
                <= u64::MAX,
    ensures
        final(counter).wf(),
        final(store).wf(),
        final(counter)@ == Map::<Seq<char>, u64>::empty(),
        final(store)@ == apply_batch(old(store)@, old(counter)@),
        forall|k: Seq<char>|
            #![trigger has_key_str(missing@, k)]
            has_key_str(missing@, k) <==> (old(counter)@.contains_key(k) && !old(
                store,
            )@.contains_key(k)),
{
    let batch = counter.take_batch();
    flush_batch_into(store, &batch)
}

} // verus!
