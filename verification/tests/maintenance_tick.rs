use fortune_gpt::counter::ResponseCounter;
use fortune_gpt::counter::run_flush;
use fortune_gpt::maintenance::run_tick;
use fortune_gpt::store::Store;

#[test]
fn expired_record_is_deleted_on_the_first_late_tick() {
    let mut store = Store::new();
    assert!(store.insert_record("old", Some(100)));
    // ticks before the expiration leave the record alone
    assert_eq!(run_tick(&mut store, 99), 0);
    assert!(store.contains_record("old"));
    // the first tick at or past the timestamp deletes it
    assert_eq!(run_tick(&mut store, 100), 1);
    assert!(!store.contains_record("old"));
    assert_eq!(store.hits("old"), None);
    // and it stays gone on later ticks
    assert_eq!(run_tick(&mut store, 5_000), 0);
    assert!(!store.contains_record("old"));
}

#[test]
fn record_without_expiration_is_never_deleted() {
    let mut store = Store::new();
    assert!(store.insert_record("forever", None));
    for now in [i64::MIN, -1, 0, 1, 1_000_000, i64::MAX] {
        assert_eq!(run_tick(&mut store, now), 0);
        assert!(store.contains_record("forever"));
    }
    assert_eq!(store.expiration("forever"), Some(None));
}

#[test]
fn tick_deletes_exactly_the_expired_records() {
    let mut store = Store::new();
    assert!(store.insert_record("gone1", Some(10)));
    assert!(store.insert_record("gone2", Some(50)));
    assert!(store.insert_record("later", Some(51)));
    assert!(store.insert_record("never", None));
    assert_eq!(run_tick(&mut store, 50), 2);
    assert!(!store.contains_record("gone1"));
    assert!(!store.contains_record("gone2"));
    assert!(store.contains_record("later"));
    assert!(store.contains_record("never"));
}

#[test]
fn empty_eligibility_set_is_a_silent_no_op() {
    let mut store = Store::new();
    assert_eq!(run_tick(&mut store, 1_000), 0);
    assert!(store.insert_record("fresh", Some(2_000)));
    assert_eq!(run_tick(&mut store, 1_000), 0);
    assert!(store.contains_record("fresh"));
}

#[test]
fn deletion_and_pending_hits_on_the_same_key_coexist() {
    // maintenance deletes a key while the aggregator still holds hits for
    // it: nothing crashes, the stale increment is discarded and reported.
    let mut counter = ResponseCounter::new();
    let mut store = Store::new();
    assert!(store.insert_record("doomed", Some(10)));
    counter.record_hit("doomed");
    counter.record_hit("doomed");
    assert_eq!(run_tick(&mut store, 10), 1);
    let missing = run_flush(&mut counter, &mut store);
    assert_eq!(missing, vec!["doomed".to_owned()]);
    assert!(!store.contains_record("doomed"));
    assert_eq!(counter.pending("doomed"), 0);
}

#[test]
fn counter_survives_deletion_and_recreation() {
    let mut counter = ResponseCounter::new();
    let mut store = Store::new();
    assert!(store.insert_record("code", Some(5)));
    counter.record_hit("code");
    assert_eq!(run_tick(&mut store, 5), 1);
    // the key is recreated before the flush: the pending hit now applies
    assert!(store.insert_record("code", None));
    let missing = run_flush(&mut counter, &mut store);
    assert!(missing.is_empty());
    assert_eq!(store.hits("code"), Some(1));
}
