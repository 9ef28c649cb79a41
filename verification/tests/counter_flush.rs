use fortune_gpt::counter::flush_batch_into;
use fortune_gpt::counter::run_flush;
use fortune_gpt::counter::ResponseCounter;
use fortune_gpt::store::Store;

#[test]
fn fifty_hits_then_flush_persists_fifty() {
    // interval worth of traffic: 50 hits on one key, then the timer flushes.
    let mut counter = ResponseCounter::new();
    let mut store = Store::new();
    assert!(store.insert_record("abc123", None));
    for _ in 0..50 {
        counter.record_hit("abc123");
    }
    assert_eq!(counter.pending("abc123"), 50);
    let missing = run_flush(&mut counter, &mut store);
    assert!(missing.is_empty());
    assert_eq!(store.hits("abc123"), Some(50));
    assert_eq!(counter.pending("abc123"), 0);
}

#[test]
fn hits_arriving_after_the_snapshot_are_not_lost() {
    let mut counter = ResponseCounter::new();
    let mut store = Store::new();
    assert!(store.insert_record("k", None));
    for _ in 0..3 {
        counter.record_hit("k");
    }
    let batch = counter.take_batch();
    // a hit lands between the snapshot and the storage write
    counter.record_hit("k");
    let missing = flush_batch_into(&mut store, &batch);
    assert!(missing.is_empty());
    assert_eq!(store.hits("k"), Some(3));
    assert_eq!(counter.pending("k"), 1);
    let missing = run_flush(&mut counter, &mut store);
    assert!(missing.is_empty());
    assert_eq!(store.hits("k"), Some(4));
}

#[test]
fn failed_flush_retries_without_double_counting() {
    let mut counter = ResponseCounter::new();
    let mut store = Store::new();
    assert!(store.insert_record("k", None));
    for _ in 0..5 {
        counter.record_hit("k");
    }
    // the storage write fails: the batch goes back into the live map
    let batch = counter.take_batch();
    counter.merge_batch(batch);
    assert_eq!(counter.pending("k"), 5);
    // the next cycle retries and persists the same totals exactly once
    let missing = run_flush(&mut counter, &mut store);
    assert!(missing.is_empty());
    assert_eq!(store.hits("k"), Some(5));
    assert_eq!(counter.pending("k"), 0);
}

#[test]
fn failed_flush_merges_with_new_hits() {
    let mut counter = ResponseCounter::new();
    let mut store = Store::new();
    assert!(store.insert_record("k", None));
    counter.record_hit("k");
    counter.record_hit("k");
    let batch = counter.take_batch();
    // two more hits arrive while the failing write is in flight
    counter.record_hit("k");
    counter.record_hit("q");
    counter.merge_batch(batch);
    assert_eq!(counter.pending("k"), 3);
    assert_eq!(counter.pending("q"), 1);
}

#[test]
fn shutdown_drains_pending_increments() {
    let mut counter = ResponseCounter::new();
    let mut store = Store::new();
    assert!(store.insert_record("job1", Some(9_999)));
    for _ in 0..5 {
        counter.record_hit("job1");
    }
    // shutdown before the timer fires: one final flush drains the map
    let missing = run_flush(&mut counter, &mut store);
    assert!(missing.is_empty());
    assert_eq!(store.hits("job1"), Some(5));
    assert_eq!(counter.pending("job1"), 0);
}

#[test]
fn increments_for_deleted_records_are_discarded() {
    let mut counter = ResponseCounter::new();
    let mut store = Store::new();
    assert!(store.insert_record("kept", None));
    counter.record_hit("kept");
    counter.record_hit("gone");
    counter.record_hit("gone");
    // "gone" was deleted by maintenance while its hits were pending: the
    // flush reports it, discards its increments, and the rest persists.
    let missing = run_flush(&mut counter, &mut store);
    assert_eq!(missing, vec!["gone".to_owned()]);
    assert_eq!(store.hits("kept"), Some(1));
    assert_eq!(store.hits("gone"), None);
    assert_eq!(counter.pending("gone"), 0);
}

#[test]
fn flush_of_nothing_is_a_no_op() {
    let mut counter = ResponseCounter::new();
    let mut store = Store::new();
    assert!(store.insert_record("k", None));
    let missing = run_flush(&mut counter, &mut store);
    assert!(missing.is_empty());
    assert_eq!(store.hits("k"), Some(0));
}

#[test]
fn distinct_keys_count_separately() {
    let mut counter = ResponseCounter::new();
    let mut store = Store::new();
    assert!(store.insert_record("a", None));
    assert!(store.insert_record("b", None));
    counter.record_hit("a");
    counter.record_hit("b");
    counter.record_hit("a");
    assert_eq!(counter.pending("a"), 2);
    assert_eq!(counter.pending("b"), 1);
    let missing = run_flush(&mut counter, &mut store);
    assert!(missing.is_empty());
    assert_eq!(store.hits("a"), Some(2));
    assert_eq!(store.hits("b"), Some(1));
}
