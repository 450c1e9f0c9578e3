use fiat_verifier::rate_limit::TokenBucket;

#[test]
fn exhausts_burst_then_refuses() {
    let mut bucket = TokenBucket::new(1, 2);
    assert!(bucket.try_take());
    assert!(bucket.try_take());
    assert!(!bucket.try_take());
}

#[test]
fn refills_by_fractions() {
    let mut bucket = TokenBucket::new(2, 1);
    assert!(bucket.take_after(0));
    assert!(!bucket.take_after(499_999_999));
    assert!(bucket.take_after(1));
    assert!(!bucket.take_after(0));
}

#[test]
fn never_holds_more_than_the_burst() {
    let mut bucket = TokenBucket::new(u64::MAX, 3);
    assert!(bucket.take_after(0));
    assert!(bucket.take_after(u128::MAX));
    assert!(bucket.take_after(0));
    assert!(bucket.take_after(0));
    assert!(!bucket.take_after(0));
    let mut empty = TokenBucket::new(5, 0);
    assert!(!empty.take_after(u128::MAX));
}

#[test]
fn grants_follow_burst_and_rate() {
    let mut bucket = TokenBucket::new(5, 20);
    let mut granted = 0;
    for _ in 0..1000 {
        if bucket.take_after(10_000_000) {
            granted += 1;
        }
    }
    assert!(granted <= 20 + 5 * 10);
    assert!(granted >= 5 * 9);
}

#[test]
fn held_tokens_are_granted_whatever_time_passes() {
    let mut bucket = TokenBucket::new(3, 4);
    for elapsed in [0, 17, u128::MAX, 333_333_333] {
        assert!(bucket.take_after(elapsed));
    }
}
