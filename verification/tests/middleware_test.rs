use fullstack_app::auth::jwt::{create_access_token, create_refresh_token};
use fullstack_app::auth::middleware::{bearer_token, AuthUser};
use fullstack_app::errors::AppError;

const SECRET: &str = "test-secret-for-integration-tests";

fn unauthorized_text(r: Result<AuthUser, AppError>) -> String {
    match r {
        Err(AppError::Unauthorized(m)) => m,
        _ => panic!("expected unauthorized"),
    }
}

#[test]
fn bearer_prefix_is_stripped() {
    assert_eq!(bearer_token("Bearer abc.def"), Some("abc.def"));
    assert_eq!(bearer_token("Bearer "), Some(""));
    assert_eq!(bearer_token("bearer abc"), None);
    assert_eq!(bearer_token("Basic abc"), None);
    assert_eq!(bearer_token("Bear"), None);
    assert_eq!(bearer_token("Bearer \u{e9}t\u{e9}"), Some("\u{e9}t\u{e9}"));
}

#[test]
fn missing_header_is_unauthorized() {
    let m = unauthorized_text(AuthUser::from_authorization(None, SECRET));
    assert_eq!(m, "Missing authorization header");
}

#[test]
fn non_bearer_header_is_unauthorized() {
    let m = unauthorized_text(AuthUser::from_authorization(Some("Token abc"), SECRET));
    assert_eq!(m, "Invalid authorization format");
}

#[test]
fn valid_access_token_authenticates() {
    let token = create_access_token("user-7", "me@example.com", SECRET, 900).unwrap();
    let header = format!("Bearer {}", token);
    let user = AuthUser::from_authorization(Some(&header), SECRET).unwrap();
    assert_eq!(user.user_id, "user-7");
    assert_eq!(user.email, "me@example.com");
}

#[test]
fn refresh_token_does_not_authenticate() {
    let token = create_refresh_token("user-7", "tid", SECRET, 900).unwrap();
    let header = format!("Bearer {}", token);
    let r = AuthUser::from_authorization(Some(&header), SECRET);
    assert!(matches!(r, Err(AppError::Unauthorized(_))));
}

#[test]
fn token_signed_with_other_secret_does_not_authenticate() {
    let token = create_access_token("user-7", "me@example.com", "another-secret", 900).unwrap();
    let header = format!("Bearer {}", token);
    let m = unauthorized_text(AuthUser::from_authorization(Some(&header), SECRET));
    assert!(m.starts_with("Invalid access token: "));
}
