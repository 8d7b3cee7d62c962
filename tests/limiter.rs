use zestors::limiter::RestartLimiter;

#[test]
fn limiter_allows_limit_then_refuses() {
    let mut l = RestartLimiter::new(3, 1000);
    assert!(l.within_limit(0));
    assert!(l.within_limit(100));
    assert!(l.within_limit(200));
    assert!(!l.within_limit(300));
}

#[test]
fn limiter_forgets_old_attempts() {
    let mut l = RestartLimiter::new(2, 1000);
    assert!(l.within_limit(0));
    assert!(l.within_limit(10));
    assert!(!l.within_limit(20));
    assert!(l.within_limit(1021));
}

#[test]
fn limiter_zero_limit_refuses_first() {
    let mut l = RestartLimiter::new(0, 1000);
    assert!(!l.within_limit(5));
    assert_eq!(l.limit(), 0);
    assert_eq!(l.within(), 1000);
}

#[test]
fn limiter_window_edge_is_inclusive() {
    let mut l = RestartLimiter::new(1, 100);
    assert!(l.within_limit(0));
    assert!(!l.within_limit(100));
    assert!(l.within_limit(201));
    assert!(!l.within_limit(250));
}
