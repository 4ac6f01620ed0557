use pwmp_server::admission::{decide_admission, Admission};
use pwmp_server::ratelimit::RateLimiter;

#[test]
fn fifth_hit_within_window_exceeds() {
    let mut limiter = RateLimiter::new(1000, 4);
    for now in [0, 100, 200, 300] {
        assert!(!limiter.hit(now));
    }
    assert!(limiter.hit(400));
    assert!(limiter.hit(999));
}

#[test]
fn hits_outside_the_window_do_not_count() {
    let mut limiter = RateLimiter::new(1000, 2);
    assert!(!limiter.hit(0));
    assert!(!limiter.hit(500));
    assert!(limiter.hit(900));
    assert!(!limiter.hit(1000));
    assert!(limiter.hit(1400));
    assert!(!limiter.hit(1500));
}

#[test]
fn zero_budget_always_exceeds() {
    let mut limiter = RateLimiter::new(1000, 0);
    assert!(limiter.hit(0));
    assert!(limiter.hit(5000));
}

#[test]
fn admission_needs_a_permit_and_a_free_window() {
    let mut limiter = RateLimiter::new(1000, 1);
    assert_eq!(decide_admission(false, &mut limiter, 0), Admission::NoPermit);
    assert_eq!(decide_admission(true, &mut limiter, 10), Admission::Admit);
    assert_eq!(decide_admission(true, &mut limiter, 20), Admission::RateLimited);
    assert_eq!(decide_admission(true, &mut limiter, 1010), Admission::Admit);
}
