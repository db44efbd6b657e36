use fullstack_app::config::{check_jwt_secret, MIN_JWT_SECRET_BYTES, PLACEHOLDER_JWT_SECRET};

#[test]
fn short_jwt_secret_is_refused() {
    assert_eq!(
        check_jwt_secret("dev-secret").as_deref(),
        Some("JWT_SECRET must be at least 32 characters")
    );
    assert_eq!(
        check_jwt_secret(&"s".repeat(MIN_JWT_SECRET_BYTES - 1)).as_deref(),
        Some("JWT_SECRET must be at least 32 characters")
    );
    assert_eq!(check_jwt_secret(&"s".repeat(MIN_JWT_SECRET_BYTES)), None);
}

#[test]
fn jwt_secret_length_counts_bytes() {
    // Sixteen two-byte characters are thirty-two bytes.
    assert_eq!(check_jwt_secret(&"\u{e9}".repeat(16)), None);
    assert!(check_jwt_secret(&"\u{e9}".repeat(15)).is_some());
}

#[test]
fn placeholder_jwt_secret_is_refused() {
    // The placeholder is shorter than the minimum, so its length already refuses it.
    assert!(check_jwt_secret(PLACEHOLDER_JWT_SECRET).is_some());
    assert_eq!(check_jwt_secret("test-secret-for-integration-tests"), None);
}
