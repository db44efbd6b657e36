use vstd::prelude::*;

verus! {

/// The settings of the service.
pub struct Config {
    pub host: String,
    pub port: u16,
    pub database_url: String,
    pub jwt_secret: String,
    pub jwt_access_expiry_secs: i64,
    pub jwt_refresh_expiry_secs: i64,
    pub smtp_host: Option<String>,
    pub smtp_port: Option<u16>,
    pub smtp_username: Option<String>,
    pub smtp_password: Option<String>,
    pub smtp_from: String,
    pub frontend_url: String,
    pub static_dir: String,
}

/// The fewest bytes that the token-signing secret may have.
pub const MIN_JWT_SECRET_BYTES: usize = 32;

/// The token-signing secret that the example settings ship with.
pub const PLACEHOLDER_JWT_SECRET: &'static str = "dev-secret-change-in-production";

/// What is wrong with a token-signing secret, if anything: one shorter than
/// 32 bytes (UTF-8) can be guessed, and the placeholder of the example
/// settings is known to everyone.
pub open spec fn jwt_secret_problem(secret: Seq<char>) -> Option<Seq<char>> {
    if vstd::utf8::encode_utf8(secret).len() < MIN_JWT_SECRET_BYTES {
        Some("JWT_SECRET must be at least 32 characters"@)
    } else if secret == PLACEHOLDER_JWT_SECRET@ {
        Some("JWT_SECRET must be changed from the default"@)
    } else {
        None
    }
}

/// Checks the token-signing secret before the service starts: `None` where
/// it may be used, else the reason to refuse it.
pub fn check_jwt_secret(secret: &str) -> (r: Option<String>)
    ensures
        match jwt_secret_problem(secret@) {
            None => r is None,
            Some(text) => r matches Some(m) && m@ == text,
        },
{
    let bytes = secret.as_bytes().len();
    if bytes < MIN_JWT_SECRET_BYTES {
        return Some("JWT_SECRET must be at least 32 characters".to_owned());
    }
    if secret.to_owned() == PLACEHOLDER_JWT_SECRET.to_owned() {
        return Some("JWT_SECRET must be changed from the default".to_owned());
    }
    None
}

} // verus!
