use mb_library::limiter::{RateLimiter, CATALOG_INTERVAL_MS, COVER_ART_INTERVAL_MS};

#[test]
fn first_caller_does_not_wait() {
    let mut limiter = RateLimiter::for_catalog();
    assert_eq!(limiter.last_permitted(), None);
    assert_eq!(limiter.acquire(5_000), 0);
    assert_eq!(limiter.last_permitted(), Some(5_000));
}

#[test]
fn second_caller_waits_for_the_rest_of_the_interval() {
    let mut limiter = RateLimiter::for_catalog();
    limiter.acquire(5_000);
    assert_eq!(limiter.acquire(5_400), 700);
    assert_eq!(limiter.last_permitted(), Some(6_100));
}

#[test]
fn caller_after_a_full_interval_does_not_wait() {
    let mut limiter = RateLimiter::for_catalog();
    limiter.acquire(5_000);
    assert_eq!(limiter.acquire(6_100), 0);
    assert_eq!(limiter.last_permitted(), Some(6_100));
    assert_eq!(limiter.acquire(9_000), 0);
    assert_eq!(limiter.last_permitted(), Some(9_000));
}

#[test]
fn callers_at_the_same_moment_are_spaced_one_interval_apart() {
    let mut limiter = RateLimiter::for_catalog();
    let mut clock: u64 = 10_000;
    let mut stamps = Vec::new();
    for _ in 0..8 {
        // each caller takes the limiter when the one before has let go of it
        let wait = limiter.acquire(clock);
        clock += wait;
        stamps.push(limiter.last_permitted().unwrap());
    }
    assert_eq!(stamps, vec![10_000, 11_100, 12_200, 13_300, 14_400, 15_500, 16_600, 17_700]);
    for pair in stamps.windows(2) {
        assert!(pair[1] >= pair[0] + 1_100);
    }
}

#[test]
fn clock_that_runs_back_counts_as_no_time_passed() {
    let mut limiter = RateLimiter::for_catalog();
    limiter.acquire(5_000);
    assert_eq!(limiter.acquire(1_000), 1_100);
    assert_eq!(limiter.last_permitted(), Some(2_100));
}

#[test]
fn each_host_has_its_own_interval() {
    assert_eq!(CATALOG_INTERVAL_MS, 1_100);
    assert_eq!(COVER_ART_INTERVAL_MS, 1_000);
    let mut catalog = RateLimiter::for_catalog();
    let mut art = RateLimiter::for_cover_art();
    assert_eq!(art.interval_ms(), 1_000);
    catalog.acquire(0);
    assert_eq!(art.acquire(100), 0);
    assert_eq!(art.acquire(600), 500);
    assert_eq!(catalog.acquire(600), 500);
}

#[test]
fn acquire_is_refused_where_the_stamp_would_not_fit() {
    let limiter = RateLimiter::new(1_100);
    assert!(limiter.can_acquire(u64::MAX - 1_100));
    assert!(!limiter.can_acquire(u64::MAX - 1_099));
}

#[test]
fn turn_is_not_taken_where_the_stamp_would_not_fit() {
    let mut limiter = RateLimiter::new(1_100);
    assert_eq!(limiter.try_acquire(7_000), Some(0));
    assert_eq!(limiter.try_acquire(7_100), Some(1_000));
    assert_eq!(limiter.last_permitted(), Some(8_100));
    assert_eq!(limiter.try_acquire(u64::MAX - 1_099), None);
    assert_eq!(limiter.try_acquire(u64::MAX), None);
    assert_eq!(limiter.last_permitted(), Some(8_100));
    assert_eq!(limiter.try_acquire(u64::MAX - 1_100), Some(0));
    assert_eq!(limiter.last_permitted(), Some(u64::MAX - 1_100));
}

#[test]
fn turns_are_stamped_in_the_order_in_which_they_are_taken() {
    let mut limiter = RateLimiter::for_catalog();
    // five callers ask at once; each takes the limiter when the one before
    // has waited out its turn
    let asked_at: u64 = 3_000;
    let mut clock = asked_at;
    let mut stamps = Vec::new();
    for _ in 0..5 {
        let wait = limiter.try_acquire(clock).unwrap();
        clock += wait;
        stamps.push(limiter.last_permitted().unwrap());
    }
    let mut sorted = stamps.clone();
    sorted.sort();
    assert_eq!(stamps, sorted);
    for (k, stamp) in stamps.iter().enumerate() {
        assert_eq!(*stamp, asked_at + 1_100 * k as u64);
    }
}
