//! In-memory reference model of the persistent record store.
//!
//! The storage pool contract the background subsystem relies on is two
//! operations: an atomic increment-by-count per record, and a single-query
//! purge of expired records. This module implements that contract over an
//! in-memory table with the same observable behaviour, so the flush and
//! maintenance logic — and the tests — run against a verified model; the
//! composition root wires the same logic to the real pool.
use vstd::prelude::*;

use crate::counter::count_of;
use crate::maintenance::purge;

verus! {

/// One persisted record: its key, its access counter, and its optional
/// expiration timestamp (seconds since the epoch). A record with no
/// expiration timestamp never expires.
pub struct StoreRecord {
    pub key: String,
    pub hits: u64,
    pub expires: Option<i64>,
}

/// The store described by a list of records: later entries win, though the
/// lists used here never repeat a key.
pub open spec fn store_map(s: Seq<StoreRecord>) -> Map<Seq<char>, (u64, Option<i64>)>
    decreases s.len(),
{
    if s.len() == 0 {
        Map::empty()
    } else {
        store_map(s.drop_last()).insert(s.last().key@, (s.last().hits, s.last().expires))
    }
}

/// No two records of the list share a key.
pub open spec fn record_keys_distinct(s: Seq<StoreRecord>) -> bool {
    forall|i: int, j: int| 0 <= i < j < s.len() ==> s[i].key@ != s[j].key@
}

/// The store after one flush of batch `b`: each record's counter grows by
/// the batch count for its key; an increment for a key the store does not
/// hold changes nothing. The set of records is unchanged.
pub open spec fn apply_batch(
    s: Map<Seq<char>, (u64, Option<i64>)>,
    b: Map<Seq<char>, u64>,
) -> Map<Seq<char>, (u64, Option<i64>)> {
    Map::new(
        |k: Seq<char>| s.contains_key(k),
        |k: Seq<char>| (((s[k].0 + count_of(b, k)) as u64), s[k].1),
    )
}

/// A key is in the store map exactly when some record of the list holds it.
pub proof fn lemma_store_map_contains(s: Seq<StoreRecord>, k: Seq<char>)
    ensures
        store_map(s).contains_key(k) <==> (exists|i: int| 0 <= i < s.len() && s[i].key@ == k),
    decreases s.len(),
{
    if s.len() > 0 {
        lemma_store_map_contains(s.drop_last(), k);
        if s.last().key@ == k {
            assert(s[s.len() - 1].key@ == k);
        } else {
            if exists|i: int| 0 <= i < s.len() && s[i].key@ == k {
                let i = choose|i: int| 0 <= i < s.len() && s[i].key@ == k;
                assert(i < s.len() - 1);
                assert(s.drop_last()[i].key@ == k);
            }
        }
    }
}

/// With distinct keys, the store map gives each record its own fields.
pub proof fn lemma_store_map_value(s: Seq<StoreRecord>, i: int)
    requires
        record_keys_distinct(s),
        0 <= i < s.len(),
    ensures
        store_map(s).contains_key(s[i].key@),
        store_map(s)[s[i].key@] == (s[i].hits, s[i].expires),
    decreases s.len(),
{
    if i < s.len() - 1 {
        lemma_store_map_value(s.drop_last(), i);
        assert(s.drop_last()[i] == s[i]);
        assert(s.last().key@ != s[i].key@);
    }
}

/// Replacing the record at `i` with one holding the same key updates the
/// store map at that key alone.
pub proof fn lemma_store_map_update(s: Seq<StoreRecord>, i: int, p: StoreRecord)
    requires
        record_keys_distinct(s),
        0 <= i < s.len(),
        p.key@ == s[i].key@,
    ensures
        store_map(s.update(i, p)) == store_map(s).insert(p.key@, (p.hits, p.expires)),
    decreases s.len(),
{
    let t = s.update(i, p);
    if i == s.len() - 1 {
        assert(t.drop_last() =~= s.drop_last());
        assert(t.last() == p);
        assert(store_map(s).insert(p.key@, (p.hits, p.expires)) =~= store_map(
            s.drop_last(),
        ).insert(p.key@, (p.hits, p.expires)));
    } else {
        lemma_store_map_update(s.drop_last(), i, p);
        assert(t.drop_last() =~= s.drop_last().update(i, p));
        assert(t.last() == s.last());
        assert(s.last().key@ != p.key@);
        assert(store_map(s.drop_last()).insert(p.key@, (p.hits, p.expires)).insert(
            s.last().key@,
            (s.last().hits, s.last().expires),
        ) =~= store_map(s.drop_last()).insert(s.last().key@, (s.last().hits, s.last().expires))
            .insert(p.key@, (p.hits, p.expires)));
    }
}

/// Appending a record inserts its key into the store map.
pub proof fn lemma_store_map_push(s: Seq<StoreRecord>, p: StoreRecord)
    ensures
        store_map(s.push(p)) == store_map(s).insert(p.key@, (p.hits, p.expires)),
{
    assert(s.push(p).drop_last() =~= s);
}

/// With distinct keys, the store map has exactly one entry per record.
pub proof fn lemma_store_map_card(s: Seq<StoreRecord>)
    requires
        record_keys_distinct(s),
    ensures
        store_map(s).dom().finite(),
        store_map(s).dom().len() == s.len(),
    decreases s.len(),
{
    if s.len() > 0 {
        lemma_store_map_card(s.drop_last());
        lemma_store_map_contains(s.drop_last(), s.last().key@);
        assert(!store_map(s.drop_last()).contains_key(s.last().key@));
    }
}

/// The in-memory record table.
pub struct Store {
    records: Vec<StoreRecord>,
}

impl Store {
    /// The persisted state: record key to access counter and optional
    /// expiration timestamp.
    pub closed spec fn view(&self) -> Map<Seq<char>, (u64, Option<i64>)> {
        store_map(self.records@)
    }

    /// Internal well-formedness: record keys are unique.
    pub closed spec fn wf(&self) -> bool {
        record_keys_distinct(self.records@)
    }

    /// An empty store.
    pub fn new() -> (r: Self)
        ensures
            r.wf(),
            r@ == Map::<Seq<char>, (u64, Option<i64>)>::empty(),
    {
        Store { records: Vec::new() }
    }

    /// Create a record with a zero counter and the given expiration, unless
    /// a record with the same key already exists.
    pub fn insert_record(&mut self, key: &str, expires: Option<i64>) -> (ok: bool)
        requires
            old(self).wf(),
        ensures
            final(self).wf(),
            ok == !old(self)@.contains_key(key@),
            ok ==> final(self)@ == old(self)@.insert(key@, (0u64, expires)),
            !ok ==> final(self)@ == old(self)@,
    {
        proof {
            lemma_store_map_contains(self.records@, key@);
        }
        if self.contains_record(key) {
            return false;
        }
        let rec = StoreRecord { key: key.to_owned(), hits: 0, expires };
        proof {
            lemma_store_map_push(self.records@, rec);
        }
        self.records.push(rec);
        true
    }

    /// Whether a record with this key exists.
    pub fn contains_record(&self, key: &str) -> (b: bool)
        requires
            self.wf(),
        ensures
            b == self@.contains_key(key@),
    {
        let key_s = key.to_owned();
        let n = self.records.len();
        let mut i: usize = 0;
        while i < n
            invariant
                self.wf(),
                key_s@ == key@,
                n == self.records.len(),
                i <= n,
                forall|j: int| 0 <= j < i ==> self.records@[j].key@ != key@,
            decreases n - i,
        {
            if self.records[i].key == key_s {
                proof {
                    lemma_store_map_value(self.records@, i as int);
                }
                return true;
            }
            i += 1;
        }
        proof {
            lemma_store_map_contains(self.records@, key@);
        }
        false
    }

    /// The persisted access counter of a record, if the record exists.
    pub fn hits(&self, key: &str) -> (r: Option<u64>)
        requires
            self.wf(),
        ensures
            r == (if self@.contains_key(key@) {
                Some(self@[key@].0)
            } else {
                None::<u64>
            }),
    {
        let key_s = key.to_owned();
        let n = self.records.len();
        let mut i: usize = 0;
        while i < n
            invariant
                self.wf(),
                key_s@ == key@,
                n == self.records.len(),
                i <= n,
                forall|j: int| 0 <= j < i ==> self.records@[j].key@ != key@,
            decreases n - i,
        {
            if self.records[i].key == key_s {
                proof {
                    lemma_store_map_value(self.records@, i as int);
                }
                return Some(self.records[i].hits);
            }
            i += 1;
        }
        proof {
            lemma_store_map_contains(self.records@, key@);
        }
        None
    }

    /// The expiration timestamp of a record, if the record exists.
    pub fn expiration(&self, key: &str) -> (r: Option<Option<i64>>)
        requires
            self.wf(),
        ensures
            r == (if self@.contains_key(key@) {
                Some(self@[key@].1)
            } else {
                None::<Option<i64>>
            }),
    {
        let key_s = key.to_owned();
        let n = self.records.len();
        let mut i: usize = 0;
        while i < n
            invariant
                self.wf(),
                key_s@ == key@,
                n == self.records.len(),
                i <= n,
                forall|j: int| 0 <= j < i ==> self.records@[j].key@ != key@,
            decreases n - i,
        {
            if self.records[i].key == key_s {
                proof {
                    lemma_store_map_value(self.records@, i as int);
                }
                return Some(self.records[i].expires);
            }
            i += 1;
        }
        proof {
            lemma_store_map_contains(self.records@, key@);
        }
        None
    }

    /// Atomically add `delta` to the access counter of `key`.
    ///
    /// Returns whether the record exists; an increment for a missing record
    /// — deleted while its hits were pending — changes nothing and is
    /// reported to the caller, never an error.
    pub fn increment_counter(&mut self, key: &str, delta: u64) -> (found: bool)
        requires
            old(self).wf(),
            old(self)@.contains_key(key@) ==> old(self)@[key@].0 + delta <= u64::MAX,
        ensures
            final(self).wf(),
            found == old(self)@.contains_key(key@),
            found ==> final(self)@ == old(self)@.insert(
                key@,
                (((old(self)@[key@].0 + delta) as u64), old(self)@[key@].1),
            ),
            !found ==> final(self)@ == old(self)@,
    {
        let key_s = key.to_owned();
        let n = self.records.len();
        let mut i: usize = 0;
        while i < n
            invariant
                self.wf(),
                *self == *old(self),
                key_s@ == key@,
                old(self)@.contains_key(key@) ==> old(self)@[key@].0 + delta <= u64::MAX,
                n == self.records.len(),
                i <= n,
                forall|j: int| 0 <= j < i ==> self.records@[j].key@ != key@,
            decreases n - i,
        {
            if self.records[i].key == key_s {
                proof {
                    lemma_store_map_value(self.records@, i as int);
                }
                let rec = StoreRecord {
                    key: self.records[i].key.clone(),
                    hits: self.records[i].hits + delta,
                    expires: self.records[i].expires,
                };
                proof {
                    lemma_store_map_update(self.records@, i as int, rec);
                }
                self.records.set(i, rec);
                return true;
            }
            i += 1;
        }
        proof {
            lemma_store_map_contains(self.records@, key@);
        }
        false
    }

    /// Delete every record whose expiration timestamp is present and at or
    /// before `now`, in one pass, and return how many were deleted. An empty
    /// eligible set is a normal no-op.
    pub fn delete_expired(&mut self, now: i64) -> (n: usize)
        requires
            old(self).wf(),
        ensures
            final(self).wf(),
            final(self)@ == purge(old(self)@, now),
            old(self)@.dom().finite(),
            final(self)@.dom().finite(),
            n == old(self)@.dom().len() - final(self)@.dom().len(),
    {
        let mut recs: Vec<StoreRecord> = Vec::new();
        core::mem::swap(&mut recs, &mut self.records);
        let ghost all = recs@;
        let total = recs.len();
        proof {
            lemma_store_map_card(all);
        }
        let mut kept: usize = 0;
        for rec in it: recs
            invariant
                it.seq() == all,
                record_keys_distinct(all),
                total == all.len(),
                record_keys_distinct(self.records@),
                kept == self.records.len(),
                kept <= it.index(),
                store_map(self.records@) == purge(
                    store_map(all.take(it.index() as int)),
                    now,
                ),
                forall|k: Seq<char>| #[trigger]
                    store_map(self.records@).contains_key(k) ==> store_map(
                        all.take(it.index() as int),
                    ).contains_key(k),
        {
            let ghost idx = it.index() as int;
            let ghost prefix = all.take(idx);
            proof {
                assert(all.take(idx + 1) =~= prefix.push(all[idx]));
                lemma_store_map_push(prefix, all[idx]);
                lemma_store_map_contains(prefix, all[idx].key@);
                assert(forall|i: int| 0 <= i < prefix.len() ==> prefix[i] == all[i]);
                assert(!store_map(prefix).contains_key(all[idx].key@));
            }
            let keep = match rec.expires {
                Some(t) => t > now,
                None => true,
            };
            if keep {
                proof {
                    lemma_store_map_contains(self.records@, rec.key@);
                    lemma_store_map_push(self.records@, rec);
                    assert(store_map(self.records@.push(rec)) =~= purge(
                        store_map(all.take(idx + 1)),
                        now,
                    ));
                }
                self.records.push(rec);
                kept += 1;
            } else {
                proof {
                    assert(store_map(self.records@) =~= purge(
                        store_map(all.take(idx + 1)),
                        now,
                    ));
                }
            }
        }
        proof {
            assert(all.take(total as int) =~= all);
            lemma_store_map_card(self.records@);
        }
        total - kept
    }
}

} // verus!
