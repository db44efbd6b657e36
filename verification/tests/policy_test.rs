use fullstack_app::routes::policy::{
    cors_headers, cors_methods, endpoints, full_path, security_headers, Endpoint, Method,
    API_PREFIX, BODY_LIMIT_BYTES, FALLBACK_PAGE,
};

#[test]
fn every_route_is_versioned_and_distinct() {
    let es = endpoints();
    assert_eq!(es.len(), 10);
    let mut seen = Vec::new();
    for e in es {
        let (m, _) = e.route();
        let p = full_path(e);
        assert!(p.starts_with("/api/v1/"));
        assert!(!seen.contains(&(m, p.clone())));
        seen.push((m, p));
    }
    assert_eq!(API_PREFIX, "/api/v1");
}

#[test]
fn routes_match_the_api() {
    assert_eq!(Endpoint::Register.route(), (Method::Post, "/auth/register"));
    assert_eq!(Endpoint::ForgotPassword.route(), (Method::Post, "/auth/forgot-password"));
    assert_eq!(Endpoint::ListData.route(), (Method::Get, "/user/data"));
    assert_eq!(Endpoint::CreateData.route(), (Method::Post, "/user/data"));
    assert_eq!(full_path(Endpoint::GetMe), "/api/v1/user/me");
    assert_eq!(full_path(Endpoint::Health), "/api/v1/health");
}

#[test]
fn protected_endpoints() {
    assert!(Endpoint::Logout.requires_auth());
    assert!(Endpoint::GetMe.requires_auth());
    assert!(Endpoint::ListData.requires_auth());
    assert!(Endpoint::CreateData.requires_auth());
    assert!(!Endpoint::Login.requires_auth());
    assert!(!Endpoint::Refresh.requires_auth());
    assert!(!Endpoint::Health.requires_auth());
}

#[test]
fn response_and_cors_policy() {
    assert_eq!(
        security_headers(),
        vec![
            ("x-frame-options", "DENY"),
            ("x-content-type-options", "nosniff"),
            ("referrer-policy", "strict-origin-when-cross-origin"),
        ]
    );
    assert_eq!(cors_methods(), vec![Method::Get, Method::Post, Method::Put, Method::Delete]);
    assert_eq!(cors_headers(), vec!["authorization", "content-type"]);
    assert_eq!(BODY_LIMIT_BYTES, 1024 * 1024);
    assert_eq!(FALLBACK_PAGE, "200.html");
}
