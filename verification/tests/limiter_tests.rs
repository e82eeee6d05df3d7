use craft_gate::config::AppConfig;
use craft_gate::dispatch::{admit_connection, Admission, AppDaemon, AppState};
use craft_gate::limiter::Limiter;

#[test]
fn test_limiter() {
    const TEST_LIMIT: usize = 8;

    let mut limiter = Limiter::new(TEST_LIMIT);

    let mut cache = Vec::with_capacity(TEST_LIMIT);
    for _ in 0..TEST_LIMIT {
        let acquire = limiter.try_acquire("1".to_string());
        assert!(acquire.is_some());
        cache.push(acquire.unwrap());
    }

    assert!(limiter.try_acquire("1".to_string()).is_none());

    for item in cache {
        limiter.release(item);
    }

    assert!(limiter.try_acquire("1".to_string()).is_some());
}

#[test]
fn capacity_bounds_each_key_separately() {
    let mut limiter = Limiter::new(2);

    let a1 = limiter.try_acquire("10.0.0.1".to_string());
    let a2 = limiter.try_acquire("10.0.0.1".to_string());
    assert!(a1.is_some());
    assert!(a2.is_some());
    // The third concurrent attempt for the same key is refused.
    assert!(limiter.try_acquire("10.0.0.1".to_string()).is_none());

    // A different key has its own budget.
    let b1 = limiter.try_acquire("10.0.0.2".to_string());
    assert!(b1.is_some());

    // Releasing one permit reopens exactly that key.
    limiter.release(a1.unwrap());
    assert!(limiter.try_acquire("10.0.0.1".to_string()).is_some());
}

#[test]
fn capacity_zero_always_succeeds() {
    let mut limiter = Limiter::new(0);
    assert!(!limiter.is_limit_enabled());

    let mut guards = Vec::new();
    for i in 0..100 {
        let key = format!("192.168.0.{}", i % 3);
        let g = limiter.try_acquire(key);
        assert!(g.is_some());
        guards.push(g.unwrap());
    }
}

#[test]
fn releasing_all_permits_removes_the_entry() {
    let mut limiter = Limiter::new(4);
    let key = "203.0.113.9".to_string();

    let g1 = limiter.try_acquire(key.clone()).unwrap();
    let g2 = limiter.try_acquire(key.clone()).unwrap();
    assert_eq!(limiter.current_count(&key), Some(2));

    limiter.release(g1);
    assert_eq!(limiter.current_count(&key), Some(1));

    limiter.release(g2);
    // No zero entry is retained: the key leaves no trace.
    assert_eq!(limiter.current_count(&key), None);
}

#[test]
fn admission_scenario_single_slot() {
    // Capacity 1: client "A" opens connection 1 (admitted), then opens
    // connection 2 before closing connection 1 (refused); after
    // connection 1 ends, a new connection from "A" is admitted.
    let mut limiter = Limiter::new(1);

    let first = admit_connection(&mut limiter, "A".to_string());
    let guard = match first {
        Admission::Permitted(g) => g,
        _ => panic!("first connection should be admitted"),
    };

    let second = admit_connection(&mut limiter, "A".to_string());
    assert!(matches!(second, Admission::Refused));

    limiter.release(guard);

    let third = admit_connection(&mut limiter, "A".to_string());
    assert!(matches!(third, Admission::Permitted(_)));
}

#[test]
fn daemon_limiter_follows_the_configured_capacity() {
    let mut config = AppConfig::default();
    let daemon = AppDaemon::new(AppState { config: config.clone() });
    // The reference configuration enables limiting (capacity 64).
    assert!(daemon.connection_limiter.is_limit_enabled());

    config.ip_limit = 0;
    let unlimited = AppDaemon::new(AppState { config });
    assert!(!unlimited.connection_limiter.is_limit_enabled());
}

#[test]
fn admission_disabled_is_untracked() {
    let mut limiter = Limiter::new(0);
    let key = "A".to_string();

    let first = admit_connection(&mut limiter, key.clone());
    assert!(matches!(first, Admission::Unlimited));
    // Nothing is counted when limiting is disabled.
    assert_eq!(limiter.current_count(&key), None);
}
