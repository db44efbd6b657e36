use fullstack_app::routes::policy::{endpoints, Endpoint};
use fullstack_app::routes::rate_limit::{RateLimiter, RATE_BURST, RATE_PERIOD_MS};

#[test]
fn burst_then_refusal_then_one_more_after_a_period() {
    let mut l = RateLimiter::new();
    let now = 10_000;
    for _ in 0..RATE_BURST {
        assert!(l.check("10.0.0.1", now));
    }
    assert!(!l.check("10.0.0.1", now));
    // A refusal does not push the client further back.
    assert!(!l.check("10.0.0.1", now + RATE_PERIOD_MS - 1));
    assert!(l.check("10.0.0.1", now + RATE_PERIOD_MS));
    assert!(!l.check("10.0.0.1", now + RATE_PERIOD_MS));
}

#[test]
fn clients_are_limited_apart() {
    let mut l = RateLimiter::new();
    for _ in 0..RATE_BURST {
        assert!(l.check("10.0.0.1", 0));
    }
    assert!(!l.check("10.0.0.1", 0));
    assert!(l.check("10.0.0.2", 0));
}

#[test]
fn idle_client_gets_a_full_burst_again() {
    let mut l = RateLimiter::new();
    for _ in 0..RATE_BURST {
        assert!(l.check("c", 0));
    }
    let later = RATE_BURST * RATE_PERIOD_MS * 3;
    for _ in 0..RATE_BURST {
        assert!(l.check("c", later));
    }
    assert!(!l.check("c", later));
}

#[test]
fn only_password_and_mail_endpoints_are_limited() {
    let limited: Vec<Endpoint> = endpoints().into_iter().filter(|e| e.rate_limited()).collect();
    assert_eq!(limited.len(), 3);
    assert!(Endpoint::Register.rate_limited());
    assert!(Endpoint::Login.rate_limited());
    assert!(Endpoint::ForgotPassword.rate_limited());
    assert!(!Endpoint::Refresh.rate_limited());
    assert!(!Endpoint::Health.rate_limited());
}
