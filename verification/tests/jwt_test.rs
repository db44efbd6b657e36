use fullstack_app::auth::jwt::{
    create_access_token, create_refresh_token, encode_access_claims, verify_access_token,
    verify_refresh_token, AccessClaims,
};

const TEST_SECRET: &str = "test-secret-key-for-unit-tests";

#[test]
fn create_and_verify_access_token() {
    let token = create_access_token("user-123", "test@example.com", TEST_SECRET, 300).unwrap();
    let claims = verify_access_token(&token, TEST_SECRET).unwrap();
    assert_eq!(claims.sub, "user-123");
    assert_eq!(claims.email, "test@example.com");
    assert_eq!(claims.token_type, "access");
}

#[test]
fn access_token_expires() {
    // Create a token that expired well past the default 60s leeway
    let now = chrono::Utc::now().timestamp() as usize;
    let claims = AccessClaims {
        sub: "user-123".to_string(),
        email: "test@example.com".to_string(),
        token_type: "access".to_string(),
        exp: now - 120,
        iat: now - 130,
    };
    let token = encode_access_claims(&claims, TEST_SECRET).unwrap();
    assert!(verify_access_token(&token, TEST_SECRET).is_err());
}

#[test]
fn refresh_token_type_rejected_as_access() {
    let token = create_refresh_token("user-123", "token-id", TEST_SECRET, 300).unwrap();
    assert!(verify_access_token(&token, TEST_SECRET).is_err());
}

#[test]
fn invalid_secret_rejected() {
    let token = create_access_token("user-123", "test@example.com", TEST_SECRET, 300).unwrap();
    assert!(verify_access_token(&token, "wrong-secret").is_err());
}

#[test]
fn create_and_verify_refresh_token() {
    let token = create_refresh_token("user-123", "token-456", TEST_SECRET, 600).unwrap();
    let claims = verify_refresh_token(&token, TEST_SECRET).unwrap();
    assert_eq!(claims.sub, "user-123");
    assert_eq!(claims.jti, "token-456");
    assert_eq!(claims.token_type, "refresh");
}

use fullstack_app::auth::jwt::{
    access_claims_of_payload, encode_refresh_claims, refresh_claims_of_payload, RefreshClaims,
};
use fullstack_app::errors::AppError;

fn claims(sub: &str, email: &str, token_type: &str, exp: usize, iat: usize) -> AccessClaims {
    AccessClaims {
        sub: sub.to_string(),
        email: email.to_string(),
        token_type: token_type.to_string(),
        exp,
        iat,
    }
}

#[test]
fn access_claims_json_is_compact_and_ordered() {
    let c = claims("user-123", "test@example.com", "access", 1700000300, 1700000000);
    assert_eq!(
        c.to_json(),
        "{\"sub\":\"user-123\",\"email\":\"test@example.com\",\"token_type\":\"access\",\"exp\":1700000300,\"iat\":1700000000}"
    );
}

#[test]
fn access_claims_json_escapes_strings() {
    let c = claims("a\"b\\c", "x\ny\t\u{1}\u{8}\u{c}\r", "\u{e9}/", 0, 9);
    assert_eq!(
        c.to_json(),
        "{\"sub\":\"a\\\"b\\\\c\",\"email\":\"x\\ny\\t\\u0001\\b\\f\\r\",\"token_type\":\"\u{e9}/\",\"exp\":0,\"iat\":9}"
    );
}

#[test]
fn claims_json_matches_serde_json_text() {
    // The library's JSON text parses back, with serde_json, to the same values.
    let c = claims("weird \"user\"\u{1f}", "e\\mail", "access", 12, 10);
    let v: serde_json::Value = serde_json::from_str(&c.to_json()).unwrap();
    assert_eq!(v["sub"].as_str(), Some("weird \"user\"\u{1f}"));
    assert_eq!(v["email"].as_str(), Some("e\\mail"));
    assert_eq!(v["exp"].as_u64(), Some(12));
    assert_eq!(v["iat"].as_u64(), Some(10));
}

#[test]
fn refresh_claims_json_is_compact_and_ordered() {
    let c = RefreshClaims {
        sub: "u".to_string(),
        jti: "t".to_string(),
        token_type: "refresh".to_string(),
        exp: 20,
        iat: 10,
    };
    assert_eq!(
        c.to_json(),
        "{\"sub\":\"u\",\"jti\":\"t\",\"token_type\":\"refresh\",\"exp\":20,\"iat\":10}"
    );
}

#[test]
fn encoded_token_has_three_segments_and_differs_from_claims() {
    let now = chrono::Utc::now().timestamp() as usize;
    let c = claims("user-1", "a@b.co", "access", now + 60, now);
    let token = encode_access_claims(&c, TEST_SECRET).unwrap();
    assert_eq!(token.split('.').count(), 3);
    assert_ne!(token, c.to_json());
    let back = verify_access_token(&token, TEST_SECRET).unwrap();
    assert_eq!(back.exp, now + 60);
    assert_eq!(back.iat, now);
}

#[test]
fn access_token_expiry_is_issue_time_plus_lifetime() {
    let token = create_access_token("user-9", "n@example.com", TEST_SECRET, 900).unwrap();
    let c = verify_access_token(&token, TEST_SECRET).unwrap();
    assert_eq!(c.exp, c.iat + 900);
}

#[test]
fn negative_lifetime_is_refused() {
    let r = create_access_token("user-9", "n@example.com", TEST_SECRET, -1);
    assert!(matches!(r, Err(AppError::Internal(_))));
    let r = create_refresh_token("user-9", "t", TEST_SECRET, -5);
    assert!(matches!(r, Err(AppError::Internal(_))));
}

#[test]
fn payload_missing_claim_is_unauthorized() {
    let r = access_claims_of_payload("{\"sub\":\"u\",\"token_type\":\"access\",\"exp\":5,\"iat\":1}");
    match r {
        Err(AppError::Unauthorized(m)) => {
            assert_eq!(m, "Invalid access token: missing or mistyped claim")
        }
        _ => panic!("expected unauthorized"),
    }
}

#[test]
fn payload_with_string_time_is_unauthorized() {
    let r = access_claims_of_payload(
        "{\"sub\":\"u\",\"email\":\"e\",\"token_type\":\"access\",\"exp\":\"5\",\"iat\":1}",
    );
    assert!(matches!(r, Err(AppError::Unauthorized(_))));
}

#[test]
fn payload_of_wrong_type_is_refused() {
    let r = access_claims_of_payload(
        "{\"sub\":\"u\",\"jti\":\"j\",\"email\":\"e\",\"token_type\":\"refresh\",\"exp\":5,\"iat\":1}",
    );
    match r {
        Err(AppError::Unauthorized(m)) => assert_eq!(m, "Invalid token type"),
        _ => panic!("expected unauthorized"),
    }
    let r = refresh_claims_of_payload(
        "{\"sub\":\"u\",\"jti\":\"j\",\"token_type\":\"access\",\"exp\":5,\"iat\":1}",
    );
    match r {
        Err(AppError::Unauthorized(m)) => assert_eq!(m, "Invalid token type"),
        _ => panic!("expected unauthorized"),
    }
}

#[test]
fn payload_with_extra_fields_is_read() {
    let c = access_claims_of_payload(
        "{\"iat\":1,\"exp\":5,\"extra\":[1,{\"a\":null}],\"token_type\":\"access\",\"email\":\"e\",\"sub\":\"u\"}",
    )
    .unwrap();
    assert_eq!(c.sub, "u");
    assert_eq!(c.email, "e");
    assert_eq!(c.exp, 5);
    assert_eq!(c.iat, 1);
}

#[test]
fn access_token_rejected_as_refresh() {
    let token = create_access_token("user-123", "test@example.com", TEST_SECRET, 300).unwrap();
    match verify_refresh_token(&token, TEST_SECRET) {
        Err(AppError::Unauthorized(m)) => assert_eq!(m, "Invalid refresh token: missing or mistyped claim"),
        _ => panic!("expected unauthorized"),
    }
}

#[test]
fn tampered_token_rejected() {
    let token = create_access_token("user-123", "test@example.com", TEST_SECRET, 300).unwrap();
    let mut tampered = token.clone();
    tampered.push('x');
    match verify_access_token(&tampered, TEST_SECRET) {
        Err(AppError::Unauthorized(m)) => assert!(m.starts_with("Invalid access token: ")),
        _ => panic!("expected unauthorized"),
    }
}

#[test]
fn expired_refresh_token_rejected() {
    let now = chrono::Utc::now().timestamp() as usize;
    let c = RefreshClaims {
        sub: "u".to_string(),
        jti: "t".to_string(),
        token_type: "refresh".to_string(),
        exp: now - 120,
        iat: now - 130,
    };
    let token = encode_refresh_claims(&c, TEST_SECRET).unwrap();
    assert!(verify_refresh_token(&token, TEST_SECRET).is_err());
}
