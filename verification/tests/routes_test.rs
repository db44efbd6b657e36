use fullstack_app::config::Config;
use fullstack_app::auth::jwt::{verify_access_token, verify_refresh_token};
use fullstack_app::errors::AppError;
use fullstack_app::routes::auth::{
    check_refresh_record, create_token_pair, forgot_password_reply, login_password_checked,
    login_user_found, new_reset_ticket, new_record_id, refresh_user_email, reset_password_plan,
    sha256_hex, time_after, time_from_now, user_insert_error, ForgotPasswordRequest, LogoutRequest,
    is_text_before, texts_equal_in_full, PresentedRefreshToken, RefreshRequest, RefreshTokenRecord, RegisterRequest,
    ResetPasswordRequest, ResetTokenRecord, ResetTokenRow, ResetWrite, StoredUser,
    FORGOT_PASSWORD_MESSAGE, first_usable_reset,
};
use fullstack_app::routes::user::{user_found, CreateUserDataRequest, UserResponse};

const SECRET: &str = "test-secret-for-integration-tests";

fn config() -> Config {
    Config {
        host: "127.0.0.1".to_string(),
        port: 0,
        database_url: ":memory:".to_string(),
        jwt_secret: SECRET.to_string(),
        jwt_access_expiry_secs: 900,
        jwt_refresh_expiry_secs: 604800,
        smtp_host: None,
        smtp_port: None,
        smtp_username: None,
        smtp_password: None,
        smtp_from: "test@example.com".to_string(),
        frontend_url: "http://localhost:3000".to_string(),
        static_dir: "/tmp/nonexistent".to_string(),
    }
}

fn validation_text(r: Result<(), AppError>) -> String {
    match r {
        Err(AppError::Validation(m)) => m,
        _ => panic!("expected a validation error"),
    }
}

fn unauthorized_text<T>(r: Result<T, AppError>) -> String {
    match r {
        Err(AppError::Unauthorized(m)) => m,
        _ => panic!("expected unauthorized"),
    }
}

fn register(email: &str, password: &str) -> RegisterRequest {
    RegisterRequest { email: email.to_string(), password: password.to_string() }
}

#[test]
fn sha256_hex_of_known_input() {
    assert_eq!(
        sha256_hex("abc"),
        "ba7816bf8f01cfea414140de5dae2223b00361a396177a9cb410ff61f20015ad"
    );
    assert_eq!(sha256_hex("").len(), 64);
}

#[test]
fn uuid_text_is_hyphenated_v4() {
    let u = new_record_id();
    assert_eq!(u.len(), 36);
    let chars: Vec<char> = u.chars().collect();
    for (i, c) in chars.iter().enumerate() {
        if i == 8 || i == 13 || i == 18 || i == 23 {
            assert_eq!(*c, '-');
        } else {
            assert!(c.is_ascii_hexdigit() && !c.is_ascii_uppercase());
        }
    }
    assert_eq!(chars[14], '4');
    assert_ne!(new_record_id(), u);
}

#[test]
fn time_text_has_database_format() {
    let t = time_from_now(3600).unwrap();
    assert_eq!(t.len(), 19);
    assert_eq!(&t[4..5], "-");
    assert_eq!(&t[10..11], " ");
    assert!(time_from_now(i64::MAX).is_none());
}

#[test]
fn register_request_rules() {
    assert!(register("test@example.com", "password123").validate().is_ok());
    assert_eq!(
        validation_text(register("not-an-email", "password123").validate()),
        r#"email: Validation error: email [{"value": String("not-an-email")}]"#
    );
    assert_eq!(
        validation_text(register("test@example.com", "short").validate()),
        r#"password: Validation error: length [{"min": Number(8), "max": Number(128), "value": String("short")}], Validation error: password_complexity [{"value": String("short")}]"#
    );
    assert_eq!(
        validation_text(register("test@example.com", "short12").validate()),
        r#"password: Validation error: length [{"min": Number(8), "max": Number(128), "value": String("short12")}]"#
    );
    assert_eq!(
        validation_text(register("", "short").validate()),
        format!(
            "{}\n{}",
            r#"email: Validation error: email [{"value": String("")}]"#,
            r#"password: Validation error: length [{"min": Number(8), "max": Number(128), "value": String("short")}], Validation error: password_complexity [{"value": String("short")}]"#
        )
    );
    assert!(register("test@example.com", &"a1".repeat(64)).validate().is_ok());
    assert!(register("test@example.com", &"a1".repeat(65)).validate().is_err());
    assert_eq!(
        validation_text(register("test@example.com", "12345678").validate()),
        r#"password: Validation error: password_complexity [{"value": String("12345678")}]"#
    );
    assert_eq!(
        validation_text(register("test@example.com", "password").validate()),
        r#"password: Validation error: password_complexity [{"value": String("password")}]"#
    );
    assert!(register("test@example.com", "passw0rd").validate().is_ok());
    assert!(register("test@example.com", "1234567").validate().is_err());
}

#[test]
fn password_length_counts_characters() {
    // Seven two-byte letters and a digit are eight characters.
    assert!(register("test@example.com", "\u{e9}\u{e9}\u{e9}\u{e9}\u{e9}\u{e9}\u{e9}1").validate().is_ok());
    assert_eq!(
        validation_text(register("test@example.com", "\u{e9}\u{e9}\u{e9}1").validate()),
        "password: Validation error: length [{\"min\": Number(8), \"max\": Number(128), \"value\": String(\"\u{e9}\u{e9}\u{e9}1\")}]"
    );
}

#[test]
fn duplicate_email_is_conflict() {
    match user_insert_error(true, "UNIQUE constraint failed".to_string()) {
        AppError::Conflict(m) => assert_eq!(m, "Email already registered"),
        _ => panic!("expected conflict"),
    }
    match user_insert_error(false, "disk I/O error".to_string()) {
        AppError::Internal(m) => assert_eq!(m, "disk I/O error"),
        _ => panic!("expected internal"),
    }
    assert_eq!(user_insert_error(true, String::new()).status_code(), 409);
}

fn stored_user() -> StoredUser {
    StoredUser {
        id: "u1".to_string(),
        email: "login@example.com".to_string(),
        password_hash: "h".to_string(),
        created_at: "2024-01-01 00:00:00".to_string(),
    }
}

#[test]
fn login_refusals_look_alike() {
    let unknown = unauthorized_text(login_user_found(None));
    let wrong = unauthorized_text(login_password_checked(stored_user(), false));
    assert_eq!(unknown, "Invalid email or password");
    assert_eq!(unknown, wrong);
    let u = login_user_found(Some(stored_user())).unwrap();
    assert_eq!(u.id, "u1");
    assert_eq!(login_password_checked(u, true).unwrap().email, "login@example.com");
}

fn presented() -> PresentedRefreshToken {
    let pair = create_token_pair(&config(), "u1", "refresh@example.com").unwrap();
    RefreshRequest { refresh_token: pair.refresh_token }.check_token(SECRET).unwrap()
}

const NOW: &str = "2030-01-01 12:00:00";

fn record(user: &str, hash: &str, revoked: bool) -> Option<RefreshTokenRecord> {
    record_until(user, hash, revoked, "2030-01-08 12:00:00")
}

fn record_until(user: &str, hash: &str, revoked: bool, expires_at: &str) -> Option<RefreshTokenRecord> {
    Some(RefreshTokenRecord {
        user_id: user.to_string(),
        token_hash: hash.to_string(),
        revoked,
        expires_at: expires_at.to_string(),
    })
}

#[test]
fn refresh_record_checks() {
    let p = presented();
    let h = p.token_hash.clone();
    let rot = check_refresh_record(&p, NOW, record("u1", &h, false)).unwrap();
    assert_eq!(rot.revoke_token_id, p.claims.jti);
    assert_eq!(rot.user_id, "u1");
    assert_eq!(unauthorized_text(check_refresh_record(&p, NOW, None)), "Invalid refresh token");
    assert_eq!(
        unauthorized_text(check_refresh_record(&p, NOW, record("u1", &h, true))),
        "Refresh token has been revoked"
    );
    assert_eq!(
        unauthorized_text(check_refresh_record(&p, NOW, record("u1", "other", false))),
        "Invalid refresh token"
    );
    assert_eq!(
        unauthorized_text(check_refresh_record(&p, NOW, record("u2", &h, false))),
        "Token user mismatch"
    );
}

#[test]
fn refresh_record_past_expiry_is_refused() {
    let p = presented();
    let h = p.token_hash.clone();
    assert_eq!(
        unauthorized_text(check_refresh_record(&p, NOW, record_until("u1", &h, false, "2030-01-01 11:59:59"))),
        "Token expired"
    );
    // A row that expires at this very second is still good.
    assert!(check_refresh_record(&p, NOW, record_until("u1", &h, false, NOW)).is_ok());
    // Revocation is reported before expiry.
    assert_eq!(
        unauthorized_text(check_refresh_record(&p, NOW, record_until("u1", &h, true, "2029-12-31 00:00:00"))),
        "Refresh token has been revoked"
    );
    // Expiry is reported before a hash mismatch.
    assert_eq!(
        unauthorized_text(check_refresh_record(&p, NOW, record_until("u1", "other", false, "2029-12-31 00:00:00"))),
        "Token expired"
    );
}

#[test]
fn refresh_flow_refuses_expired_row() {
    let p = presented();
    let h = p.token_hash.clone();
    let (mut flow, _) = RefreshFlow::begin(p, NOW.to_string());
    let r = flow.step(RefreshEvent::RecordLoaded(record_until("u1", &h, false, "2029-06-30 23:59:59")));
    assert_eq!(unauthorized_text(r), "Token expired");
}

#[test]
fn hash_comparison_reads_whole_texts() {
    assert!(texts_equal_in_full("abc123", "abc123"));
    assert!(!texts_equal_in_full("abc123", "abc124"));
    assert!(!texts_equal_in_full("xbc123", "abc123"));
    assert!(!texts_equal_in_full("abc", "abc1"));
    assert!(texts_equal_in_full("", ""));
}

#[test]
fn text_order_follows_time() {
    assert!(is_text_before("2029-12-31 23:59:59", "2030-01-01 00:00:00"));
    assert!(!is_text_before("2030-01-01 00:00:00", "2030-01-01 00:00:00"));
    assert!(!is_text_before("2030-01-01 00:00:01", "2030-01-01 00:00:00"));
    assert!(is_text_before("2030", "2030-01"));
    assert!(!is_text_before("2030-01", "2030"));
    assert!(is_text_before("", "a"));
    assert!(!is_text_before("", ""));
}

#[test]
fn refresh_token_reuse_is_refused_after_rotation() {
    let p = presented();
    let h = p.token_hash.clone();
    assert!(check_refresh_record(&p, NOW, record("u1", &h, false)).is_ok());
    // The rotation revoked the row: presenting the same token again fails.
    assert_eq!(
        unauthorized_text(check_refresh_record(&p, NOW, record("u1", &h, true))),
        "Refresh token has been revoked"
    );
}

#[test]
fn logout_hash_reaches_stored_row() {
    let pair = create_token_pair(&config(), "u1", "logout@example.com").unwrap();
    let logout = LogoutRequest { refresh_token: pair.refresh_token.clone() };
    assert_eq!(logout.token_hash(), pair.token_hash);
    let p = RefreshRequest { refresh_token: pair.refresh_token }.check_token(SECRET).unwrap();
    assert_eq!(
        unauthorized_text(check_refresh_record(&p, NOW, record("u1", &pair.token_hash, true))),
        "Refresh token has been revoked"
    );
}

#[test]
fn token_pair_is_consistent() {
    let pair = create_token_pair(&config(), "user-42", "pair@example.com").unwrap();
    let a = verify_access_token(&pair.access_token, SECRET).unwrap();
    assert_eq!(a.sub, "user-42");
    assert_eq!(a.email, "pair@example.com");
    assert_eq!(a.exp, a.iat + 900);
    let r = verify_refresh_token(&pair.refresh_token, SECRET).unwrap();
    assert_eq!(r.sub, "user-42");
    assert_eq!(r.jti, pair.token_id);
    assert_eq!(r.exp, r.iat + 604800);
    assert_eq!(pair.token_hash, sha256_hex(&pair.refresh_token));
    assert_eq!(pair.expires_at.len(), 19);
    assert_eq!(Some(pair.expires_at.clone()), time_after(pair.issued_at, 604800));
    // The reading is the clock's: within a minute of the access token's own.
    assert!((pair.issued_at - a.iat as i64).abs() <= 60);
}

#[test]
fn token_pair_with_bad_lifetime_fails() {
    let mut c = config();
    c.jwt_refresh_expiry_secs = -1;
    assert!(matches!(create_token_pair(&c, "u", "e@x.io"), Err(AppError::Internal(_))));
}

#[test]
fn refresh_of_vanished_user_is_refused() {
    assert_eq!(unauthorized_text(refresh_user_email(None)), "User not found");
    assert_eq!(refresh_user_email(Some("a@b.c".to_string())).unwrap(), "a@b.c");
}

#[test]
fn forgot_password_reply_is_the_same_either_way() {
    let found = forgot_password_reply(true);
    let missing = forgot_password_reply(false);
    assert_eq!(found.message, missing.message);
    assert_eq!(found.message, FORGOT_PASSWORD_MESSAGE);
    assert!(found.send_reset);
    assert!(!missing.send_reset);
}

#[test]
fn forgot_password_request_rules() {
    assert!(ForgotPasswordRequest { email: "noone@example.com".to_string() }.validate().is_ok());
    assert_eq!(
        validation_text(ForgotPasswordRequest { email: "nope".to_string() }.validate()),
        r#"email: Validation error: email [{"value": String("nope")}]"#
    );
}

#[test]
fn reset_ticket_hash_matches_raw_token() {
    let t = new_reset_ticket().unwrap();
    assert_eq!(t.token_hash, sha256_hex(&t.raw_token));
    assert_eq!(t.raw_token.len(), 36);
    assert_ne!(t.raw_token, t.token_id);
    assert_eq!(t.expires_at.len(), 19);
    assert_eq!(Some(t.expires_at.clone()), time_after(t.issued_at, 3600));
    // The raw token passes the request's own rule.
    let req = ResetPasswordRequest { token: t.raw_token.clone(), new_password: "password123".to_string() };
    assert!(req.validate().is_ok());
}

#[test]
fn reset_password_rules_and_plan() {
    let token = "0f8fad5b-d9cb-469f-a165-70867728950e";
    let req = ResetPasswordRequest { token: token.to_string(), new_password: "short1".to_string() };
    assert_eq!(
        validation_text(req.validate()),
        r#"new_password: Validation error: length [{"min": Number(8), "max": Number(128), "value": String("short1")}]"#
    );
    let req = ResetPasswordRequest { token: "tok".to_string(), new_password: "longenough".to_string() };
    assert_eq!(
        validation_text(req.validate()),
        format!(
            "{}\n{}",
            r#"token: Validation error: length [{"equal": Number(36), "value": String("tok")}]"#,
            r#"new_password: Validation error: password_complexity [{"value": String("longenough")}]"#
        )
    );
    let req = ResetPasswordRequest { token: token.to_string(), new_password: "longenough1".to_string() };
    assert!(req.validate().is_ok());
    assert_eq!(req.token_hash(), sha256_hex(token));
    match reset_password_plan(None) {
        Err(AppError::BadRequest(m)) => assert_eq!(m, "Invalid or expired reset token"),
        _ => panic!("expected bad request"),
    }
    let plan = reset_password_plan(Some(ResetTokenRecord {
        reset_id: "r1".to_string(),
        user_id: "u1".to_string(),
    }))
    .unwrap();
    assert_eq!(plan.len(), 3);
    assert!(matches!(&plan[0], ResetWrite::SetPasswordHash { user_id } if user_id == "u1"));
    assert!(matches!(&plan[1], ResetWrite::MarkResetTokenUsed { reset_id } if reset_id == "r1"));
    assert!(matches!(&plan[2], ResetWrite::RevokeRefreshTokens { user_id } if user_id == "u1"));
}

fn reset_row(id: &str, used: bool, expires_at: &str) -> ResetTokenRow {
    ResetTokenRow {
        reset_id: id.to_string(),
        user_id: "u1".to_string(),
        used,
        expires_at: expires_at.to_string(),
    }
}

#[test]
fn reset_lookup_skips_spent_and_expired_rows() {
    assert!(first_usable_reset(&vec![], NOW).is_none());
    let rows = vec![
        reset_row("spent", true, "2030-01-01 13:00:00"),
        reset_row("expired", false, "2030-01-01 11:00:00"),
        reset_row("now", false, NOW),
        reset_row("good", false, "2030-01-01 12:00:01"),
        reset_row("later", false, "2030-01-02 00:00:00"),
    ];
    let rec = first_usable_reset(&rows, NOW).unwrap();
    assert_eq!(rec.reset_id, "good");
    assert_eq!(rec.user_id, "u1");
    // Once spent, the row is skipped by every later lookup.
    let spent = vec![reset_row("good", true, "2030-01-01 12:00:01")];
    assert!(first_usable_reset(&spent, NOW).is_none());
    assert!(first_usable_reset(&spent, "2029-01-01 00:00:00").is_none());
}

#[test]
fn user_data_rules() {
    let ok = CreateUserDataRequest { title: "Test Item".to_string(), content: "Some content".to_string() };
    assert!(ok.validate().is_ok());
    let empty_title = CreateUserDataRequest { title: String::new(), content: String::new() };
    assert_eq!(
        validation_text(empty_title.validate()),
        r#"title: Validation error: length [{"min": Number(1), "max": Number(255), "value": String("")}]"#
    );
    let long = CreateUserDataRequest { title: "t".repeat(256), content: "c".repeat(65537) };
    let text = validation_text(long.validate());
    let lines: Vec<&str> = text.split('\n').collect();
    assert_eq!(lines.len(), 2);
    assert_eq!(
        lines[0],
        format!(r#"title: Validation error: length [{{"min": Number(1), "max": Number(255), "value": String("{}")}}]"#, "t".repeat(256))
    );
    assert_eq!(
        lines[1],
        format!(r#"content: Validation error: length [{{"max": Number(65536), "value": String("{}")}}]"#, "c".repeat(65537))
    );
    let edge = CreateUserDataRequest { title: "t".repeat(255), content: "c".repeat(65536) };
    assert!(edge.validate().is_ok());
}

#[test]
fn missing_user_is_not_found() {
    match user_found(None) {
        Err(e) => {
            assert_eq!(e.status_code(), 404);
            assert_eq!(e.message(), "User not found");
        }
        Ok(_) => panic!("expected not found"),
    }
    let u = user_found(Some(UserResponse {
        id: "1".to_string(),
        email: "me@example.com".to_string(),
        created_at: "c".to_string(),
    }))
    .unwrap();
    assert_eq!(u.email, "me@example.com");
}

use fullstack_app::routes::auth::{RefreshAction, RefreshEvent, RefreshFlow};

#[test]
fn refresh_flow_revokes_before_issuing() {
    let p = presented();
    let jti = p.claims.jti.clone();
    let h = p.token_hash.clone();
    let (mut flow, action) = RefreshFlow::begin(p, NOW.to_string());
    assert!(matches!(action, RefreshAction::LoadRecord { ref token_id } if *token_id == jti));
    let action = flow.step(RefreshEvent::RecordLoaded(record("u1", &h, false))).unwrap();
    assert!(matches!(action, RefreshAction::RevokeToken { ref token_id } if *token_id == jti));
    let action = flow.step(RefreshEvent::TokenRevoked).unwrap();
    assert!(matches!(action, RefreshAction::LoadEmail { ref user_id } if user_id == "u1"));
    let action = flow.step(RefreshEvent::EmailLoaded(Some("refresh@example.com".to_string()))).unwrap();
    match action {
        RefreshAction::IssueTokens { user_id, email } => {
            assert_eq!(user_id, "u1");
            assert_eq!(email, "refresh@example.com");
        }
        _ => panic!("expected tokens to be issued"),
    }
    // The flow is over: any further report is out of order.
    assert!(matches!(flow.step(RefreshEvent::TokenRevoked), Err(AppError::Internal(_))));
}

#[test]
fn refresh_flow_refuses_revoked_token() {
    let p = presented();
    let h = p.token_hash.clone();
    let (mut flow, _) = RefreshFlow::begin(p, NOW.to_string());
    let r = flow.step(RefreshEvent::RecordLoaded(record("u1", &h, true)));
    assert_eq!(unauthorized_text(r), "Refresh token has been revoked");
}

#[test]
fn refresh_flow_out_of_order_is_internal() {
    let (mut flow, _) = RefreshFlow::begin(presented(), NOW.to_string());
    assert!(matches!(flow.step(RefreshEvent::TokenRevoked), Err(AppError::Internal(_))));
}

#[test]
fn refresh_flow_user_gone() {
    let p = presented();
    let h = p.token_hash.clone();
    let (mut flow, _) = RefreshFlow::begin(p, NOW.to_string());
    flow.step(RefreshEvent::RecordLoaded(record("u1", &h, false))).unwrap();
    flow.step(RefreshEvent::TokenRevoked).unwrap();
    assert_eq!(unauthorized_text(flow.step(RefreshEvent::EmailLoaded(None))), "User not found");
}

use fullstack_app::routes::auth::{LoginAction, LoginEvent, LoginFlow, LoginRequest};

fn login_request() -> LoginRequest {
    LoginRequest { email: "login@example.com".to_string(), password: "password123".to_string() }
}

#[test]
fn login_flow_checks_password_before_issuing() {
    let (mut flow, action) = LoginFlow::begin(login_request());
    assert!(matches!(action, LoginAction::LoadUser { ref email } if email == "login@example.com"));
    let action = flow.step(LoginEvent::UserLoaded(Some(stored_user()))).unwrap();
    match action {
        LoginAction::CheckPassword { password, password_hash } => {
            assert_eq!(password, "password123");
            assert_eq!(password_hash, "h");
        }
        _ => panic!("expected a password check"),
    }
    match flow.step(LoginEvent::PasswordChecked(true)).unwrap() {
        LoginAction::IssueTokens { user } => assert_eq!(user.id, "u1"),
        _ => panic!("expected tokens"),
    }
}

#[test]
fn login_flow_refusals_look_alike() {
    let (mut unknown, _) = LoginFlow::begin(login_request());
    let a = unauthorized_text(unknown.step(LoginEvent::UserLoaded(None)));
    let (mut wrong, _) = LoginFlow::begin(login_request());
    wrong.step(LoginEvent::UserLoaded(Some(stored_user()))).unwrap();
    let b = unauthorized_text(wrong.step(LoginEvent::PasswordChecked(false)));
    assert_eq!(a, b);
}

#[test]
fn login_flow_cannot_skip_the_password_check() {
    let (mut flow, _) = LoginFlow::begin(login_request());
    assert!(matches!(flow.step(LoginEvent::PasswordChecked(true)), Err(AppError::Internal(_))));
}

#[test]
fn time_after_known_values() {
    assert_eq!(time_after(0, 0).unwrap(), "1970-01-01 00:00:00");
    assert_eq!(time_after(1700000000, 3600).unwrap(), "2023-11-14 23:13:20");
    assert!(time_after(i64::MAX, 1).is_none());
    assert!(time_after(i64::MAX / 2, 0).is_none());
}

use fullstack_app::routes::auth::{RegisterAction, RegisterEvent, RegisterFlow};

#[test]
fn register_flow_inserts_validated_user() {
    let (mut flow, action) = RegisterFlow::begin(register("test@example.com", "password123")).unwrap();
    assert!(matches!(action, RegisterAction::HashPassword { ref password } if password == "password123"));
    let (id, email, hash) = match flow.step(RegisterEvent::PasswordHashed("hashed".to_string())).unwrap() {
        RegisterAction::InsertUser { user_id, email, password_hash } => (user_id, email, password_hash),
        _ => panic!("expected an insertion"),
    };
    assert_eq!(id.len(), 36);
    assert_eq!(email, "test@example.com");
    assert_eq!(hash, "hashed");
    match flow.step(RegisterEvent::UserInserted(Ok(()))).unwrap() {
        RegisterAction::LoadUser { user_id } => assert_eq!(user_id, id),
        _ => panic!("expected a read-back"),
    }
    let user = UserResponse { id: id.clone(), email: email.clone(), created_at: "now".to_string() };
    match flow.step(RegisterEvent::UserLoaded(user)).unwrap() {
        RegisterAction::IssueTokens { user } => assert_eq!(user.id, id),
        _ => panic!("expected tokens"),
    }
}

#[test]
fn register_flow_refuses_invalid_request() {
    match RegisterFlow::begin(register("not-an-email", "password123")) {
        Err(AppError::Validation(m)) => {
            assert_eq!(m, r#"email: Validation error: email [{"value": String("not-an-email")}]"#)
        }
        _ => panic!("expected a validation error"),
    }
    match RegisterFlow::begin(register("test@example.com", "short")) {
        Err(e) => assert_eq!(e.status_code(), 422),
        _ => panic!("expected a validation error"),
    }
}

#[test]
fn register_flow_duplicate_email_is_conflict() {
    let (mut flow, _) = RegisterFlow::begin(register("dup@example.com", "password123")).unwrap();
    flow.step(RegisterEvent::PasswordHashed("h".to_string())).unwrap();
    match flow.step(RegisterEvent::UserInserted(Err((true, "UNIQUE constraint failed".to_string())))) {
        Err(AppError::Conflict(m)) => assert_eq!(m, "Email already registered"),
        _ => panic!("expected conflict"),
    }
}

#[test]
fn rule_texts_match_validator() {
    // Where a rule records a single parameter, validator's own text is fixed.
    let mut err = validator::ValidationError::new("email");
    err.add_param(std::borrow::Cow::from("value"), &"a \"quoted\"\n\u{7f} addr".to_string());
    assert_eq!(
        format!("email: {}", err),
        validation_text(ForgotPasswordRequest { email: "a \"quoted\"\n\u{7f} addr".to_string() }.validate())
    );
    let mut err = validator::ValidationError::new("password_complexity");
    err.add_param(std::borrow::Cow::from("value"), &"abcdefgh".to_string());
    assert_eq!(
        format!("password: {}", err),
        validation_text(register("test@example.com", "abcdefgh").validate())
    );
}
