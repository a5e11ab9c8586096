use clobber::limit::RateLimiter;

#[test]
fn unconfigured_gate_always_admits() {
    let mut l = RateLimiter::new(None, 0);
    assert_eq!(l.interval_nanos, 0);
    for now in [0, 1, 1, 2] {
        assert!(l.poll(now));
    }
}

#[test]
fn interval_is_second_over_rate() {
    let l = RateLimiter::new(Some(4), 100);
    assert_eq!(l.interval_nanos, 250_000_000);
    assert_eq!(l.next_slot, 100);
}

#[test]
fn interval_rounds_up_so_rate_is_never_exceeded() {
    // 3 per second does not divide a second: the spacing rounds up.
    let l = RateLimiter::new(Some(3), 0);
    assert_eq!(l.interval_nanos, 333_333_334);
    // A rate one short of a nanosecond's worth still gets a real spacing.
    let l = RateLimiter::new(Some(999_999_999), 0);
    assert_eq!(l.interval_nanos, 2);
}

#[test]
fn admissions_are_spaced_one_interval_apart() {
    // Two admissions per second: one every 500_000_000 ns.
    let mut l = RateLimiter::new(Some(2), 0);
    assert!(l.poll(0));
    assert!(!l.poll(1));
    assert!(!l.poll(499_999_999));
    assert!(l.poll(500_000_000));
    assert!(!l.poll(999_999_999));
    assert!(l.poll(1_100_000_000));
    // The slot books from the admission instant, not from the old slot.
    assert!(!l.poll(1_599_999_999));
    assert!(l.poll(1_600_000_000));
}

#[test]
fn admission_count_stays_under_rate_times_span() {
    // Rate 10 per second over one second of millisecond polls: at most 11.
    let mut l = RateLimiter::new(Some(10), 0);
    let mut admitted = 0u64;
    for ms in 0..=1_000u64 {
        if l.poll(ms * 1_000_000) {
            admitted += 1;
        }
    }
    assert!(admitted <= 11);
    assert!(admitted >= 10);
}

#[test]
fn rates_above_one_per_nanosecond_are_not_limited() {
    let mut l = RateLimiter::new(Some(2_000_000_000), 0);
    assert_eq!(l.interval_nanos, 0);
    assert!(l.poll(0));
    assert!(l.poll(0));
}
