use session_lock::error::Error;
use session_lock::lock::{duration_to_ms, RedisLock};
use session_lock::store::StoreModel;

fn key(s: &str) -> String {
    s.to_string()
}

#[test]
fn only_one_of_competing_acquires_wins() {
    let mut store = StoreModel::new();
    let first = RedisLock::acquire(&mut store, &key("res"), 1000, false, 0);
    assert!(first.is_ok());
    let second = RedisLock::acquire(&mut store, &key("res"), 1000, false, 0);
    match second {
        Err(Error::AlreadyExists(k)) => assert_eq!(k, "res"),
        _ => panic!("second acquire must fail with AlreadyExists"),
    }
    let third = RedisLock::acquire(&mut store, &key("res"), 1000, false, 500);
    assert!(matches!(third, Err(Error::AlreadyExists(_))));
}

#[test]
fn acquire_on_other_key_is_independent() {
    let mut store = StoreModel::new();
    assert!(RedisLock::acquire(&mut store, &key("a"), 1000, false, 0).is_ok());
    assert!(RedisLock::acquire(&mut store, &key("b"), 1000, false, 0).is_ok());
}

#[test]
fn release_frees_key_for_next_owner() {
    let mut store = StoreModel::new();
    let mut lock = RedisLock::acquire(&mut store, &key("res"), 1000, false, 0).unwrap();
    lock.release(&mut store, 10);
    assert!(!lock.auto_renew_flag);
    let next = RedisLock::acquire(&mut store, &key("res"), 1000, false, 10).unwrap();
    assert_ne!(next.token, lock.token);
}

#[test]
fn release_is_idempotent() {
    let mut store = StoreModel::new();
    let mut lock = RedisLock::acquire(&mut store, &key("res"), 1000, false, 0).unwrap();
    lock.release(&mut store, 10);
    lock.release(&mut store, 20);
    assert!(RedisLock::acquire(&mut store, &key("res"), 1000, false, 20).is_ok());
}

#[test]
fn stale_release_leaves_new_holder_alone() {
    // A acquires with ttl 100 and no renewal; the lock lapses; B acquires;
    // A's late release must not delete B's lock.
    let mut store = StoreModel::new();
    let mut lock_a = RedisLock::acquire(&mut store, &key("k"), 100, false, 0).unwrap();
    let lock_b = RedisLock::acquire(&mut store, &key("k"), 100, false, 150).unwrap();
    lock_a.release(&mut store, 160);
    assert_eq!(store.get(&key("k"), 160), Some(lock_b.token.clone()));
    let retry = RedisLock::acquire(&mut store, &key("k"), 100, false, 160);
    assert!(matches!(retry, Err(Error::AlreadyExists(_))));
}

#[test]
fn renewal_keeps_lock_beyond_original_ttl() {
    let mut store = StoreModel::new();
    let lock = RedisLock::acquire(&mut store, &key("res"), 100, true, 0).unwrap();
    assert!(lock.auto_renew_flag);
    assert_eq!(lock.renew_interval_ms(), 50);
    // Renew at the half-TTL cadence; the key stays held far past t=100.
    assert!(lock.renew_tick(&mut store, 50));
    assert!(lock.renew_tick(&mut store, 100));
    assert!(lock.renew_tick(&mut store, 150));
    let contender = RedisLock::acquire(&mut store, &key("res"), 100, false, 249);
    assert!(matches!(contender, Err(Error::AlreadyExists(_))));
}

#[test]
fn without_renewal_lock_frees_within_ttl() {
    let mut store = StoreModel::new();
    let lock = RedisLock::acquire(&mut store, &key("res"), 100, true, 0).unwrap();
    assert!(lock.renew_tick(&mut store, 50));
    // The holder crashes: no further ticks. Exactly ttl after the last
    // successful renewal the key is acquirable again — never later.
    assert!(matches!(
        RedisLock::acquire(&mut store, &key("res"), 100, false, 149),
        Err(Error::AlreadyExists(_))
    ));
    assert!(RedisLock::acquire(&mut store, &key("res"), 100, false, 150).is_ok());
}

#[test]
fn renew_tick_of_lost_lock_is_noop() {
    let mut store = StoreModel::new();
    let lock_a = RedisLock::acquire(&mut store, &key("k"), 100, true, 0).unwrap();
    let lock_b = RedisLock::acquire(&mut store, &key("k"), 100, false, 200).unwrap();
    assert!(!lock_a.renew_tick(&mut store, 210));
    assert_eq!(store.get(&key("k"), 299), Some(lock_b.token.clone()));
    assert_eq!(store.get(&key("k"), 300), None);
}

#[test]
fn owner_tokens_are_fresh_uuids() {
    let mut store = StoreModel::new();
    let lock_a = RedisLock::acquire(&mut store, &key("a"), 1000, false, 0).unwrap();
    let lock_b = RedisLock::acquire(&mut store, &key("b"), 1000, false, 0).unwrap();
    assert_eq!(lock_a.token.len(), 36);
    assert_eq!(lock_b.token.len(), 36);
    assert_ne!(lock_a.token, lock_b.token);
}

#[test]
fn duration_conversion_exact_values() {
    assert_eq!(duration_to_ms(0, 0).unwrap(), 0);
    assert_eq!(duration_to_ms(1, 0).unwrap(), 1000);
    assert_eq!(duration_to_ms(2, 345_678_901).unwrap(), 2345);
    assert_eq!(duration_to_ms(0, 999_999_999).unwrap(), 999);
}

#[test]
fn duration_out_of_range_is_rejected() {
    let r = duration_to_ms(u64::MAX / 1000 + 1, 0);
    assert!(matches!(r, Err(Error::InvalidDuration(_))));
    let just_fits = duration_to_ms(u64::MAX / 1000, 0);
    assert!(just_fits.is_ok());
}
