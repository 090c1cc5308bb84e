use domain_checker::limiter::Limiter;
use domain_checker::MAX_CONCURRENT_REQUESTS;

#[test]
fn limiter_grants_up_to_capacity() {
    let mut limiter = Limiter::new(2);
    assert_eq!(limiter.held(), 0);
    assert!(limiter.try_acquire());
    assert!(limiter.try_acquire());
    assert_eq!(limiter.held(), 2);
    assert!(!limiter.try_acquire());
    assert_eq!(limiter.held(), 2);
}

#[test]
fn released_slot_can_be_granted_again() {
    let mut limiter = Limiter::new(1);
    assert!(limiter.try_acquire());
    assert!(!limiter.try_acquire());
    limiter.release();
    assert_eq!(limiter.held(), 0);
    assert!(limiter.try_acquire());
    assert_eq!(limiter.held(), 1);
}

#[test]
fn held_slots_never_exceed_the_cap() {
    let mut limiter = Limiter::new(MAX_CONCURRENT_REQUESTS);
    let mut granted: usize = 0;
    for _ in 0..(MAX_CONCURRENT_REQUESTS + 25) {
        if limiter.try_acquire() {
            granted += 1;
        }
        assert!(limiter.held() <= MAX_CONCURRENT_REQUESTS);
    }
    assert_eq!(granted, MAX_CONCURRENT_REQUESTS);
}

#[test]
fn zero_capacity_grants_nothing() {
    let mut limiter = Limiter::new(0);
    assert!(!limiter.try_acquire());
    assert_eq!(limiter.held(), 0);
}
