use vstd::prelude::*;

use sha2::Digest;

use crate::auth::jwt::{
    create_access_token_at, create_refresh_token_at, hs256_signature_valid, is_issued_access_token,
    is_issued_refresh_token, issued_access_at, issued_refresh_at,
    unix_now, verify_refresh_token, RefreshClaims,
};
use crate::config::Config;
use crate::errors::AppError;
use crate::routes::user::UserResponse;
use crate::json::hex_digit_lower;
use crate::validation::{
    char_count, field_error, is_valid_email, length_rule, length_rule_error, password_failures,
    validation_outcome, validator_email, value_rule, value_rule_error,
    ValidationReport,
};

verus! {

// ----------------------------------------------------------------------
// Hashing of stored tokens
// ----------------------------------------------------------------------

/// The SHA-256 digest of the UTF-8 encoding of a text.
pub uninterp spec fn sha256_utf8(text: Seq<char>) -> Seq<u8>;

/// Calls `sha2::Sha256::digest` on the UTF-8 bytes of the text. Claimed: the
/// digest is the one named by `sha256_utf8`, and it has 32 bytes.
#[verifier::external_body]
fn sha256_digest(input: &str) -> (r: Vec<u8>)
    ensures
        r@ == sha256_utf8(input@),
        r@.len() == 32,
{
    sha2::Sha256::digest(input.as_bytes()).to_vec()
}

/// The lower-case hexadecimal text of bytes, two digits per byte, high digit
/// first.
pub open spec fn hex_lower(bytes: Seq<u8>) -> Seq<char>
    decreases bytes.len(),
{
    if bytes.len() == 0 {
        Seq::empty()
    } else {
        hex_lower(bytes.drop_last()) + seq![
            hex_digit_lower((bytes.last() / 16) as int),
            hex_digit_lower((bytes.last() % 16) as int),
        ]
    }
}

/// Calls `hex::encode`. Claimed, as its documentation states: the result is
/// the lower-case hexadecimal text of the bytes, two digits per byte.
#[verifier::external_body]
fn hex_encode(bytes: &[u8]) -> (r: String)
    ensures
        r@ == hex_lower(bytes@),
{
    hex::encode(bytes)
}

proof fn lemma_hex_lower_len(bytes: Seq<u8>)
    ensures
        hex_lower(bytes).len() == 2 * bytes.len(),
    decreases bytes.len(),
{
    if bytes.len() > 0 {
        lemma_hex_lower_len(bytes.drop_last());
    }
}

/// The text under which a token is stored: the lower-case hex of its SHA-256.
pub open spec fn token_hash_of(token: Seq<char>) -> Seq<char> {
    hex_lower(sha256_utf8(token))
}

/// The hex text of the SHA-256 digest of a text.
pub fn sha256_hex(input: &str) -> (h: String)
    ensures
        h@ == token_hash_of(input@),
        h@.len() == 64,
{
    let digest = sha256_digest(input);
    proof {
        lemma_hex_lower_len(digest@);
    }
    hex_encode(digest.as_slice())
}

// ----------------------------------------------------------------------
// Identifiers and times
// ----------------------------------------------------------------------

/// A lower-case hexadecimal digit.
pub open spec fn is_lower_hex(c: char) -> bool {
    ('0' <= c && c <= '9') || ('a' <= c && c <= 'f')
}

/// The hyphenated lower-case text of a version-4 UUID.
pub open spec fn is_uuid_v4_text(s: Seq<char>) -> bool {
    &&& s.len() == 36
    &&& forall|i: int|
        0 <= i < 36 ==> if i == 8 || i == 13 || i == 18 || i == 23 {
            s[i] == '-'
        } else {
            is_lower_hex(#[trigger] s[i])
        }
    &&& s[14] == '4'
}

/// Calls `uuid::Uuid::new_v4` and writes the UUID with `to_string`. Claimed,
/// as the crate documents: the text is the hyphenated lower-case form of a
/// version-4 UUID. The value is random: nothing else is claimed.
#[verifier::external_body]
fn uuid_v4_text() -> (r: String)
    ensures
        is_uuid_v4_text(r@),
{
    uuid::Uuid::new_v4().to_string()
}

/// A fresh random id for a stored row (a user, a token, a data item): the
/// text of a version-4 UUID.
pub fn new_record_id() -> (id: String)
    ensures
        is_uuid_v4_text(id@),
{
    uuid_v4_text()
}

/// The text `%Y-%m-%d %H:%M:%S` of a UTC time given in seconds since the
/// Unix epoch, as `chrono` writes it; `None` outside `chrono`'s range.
pub uninterp spec fn utc_datetime_text(timestamp: int) -> Option<Seq<char>>;

/// Calls `chrono::DateTime::from_timestamp` and formats the time with
/// `%Y-%m-%d %H:%M:%S`. Claimed: the result is the one named by
/// `utc_datetime_text`.
#[verifier::external_body]
fn format_utc_timestamp(timestamp: i64) -> (r: Option<String>)
    ensures
        match r {
            Some(t) => utc_datetime_text(timestamp as int) == Some(t@),
            None => utc_datetime_text(timestamp as int) is None,
        },
{
    chrono::DateTime::from_timestamp(timestamp, 0).map(|t| t.format("%Y-%m-%d %H:%M:%S").to_string())
}

/// Whether `text` is the UTC time, written as the database stores times,
/// that lies `secs` seconds after some reading of the clock.
pub open spec fn is_time_after(text: Seq<char>, secs: i64) -> bool {
    exists|now: i64| #[trigger] utc_datetime_text(now + secs) == Some(text)
}

/// The time, written as the database stores times, `secs` seconds after the
/// time `now` (seconds since the Unix epoch); `None` where the sum leaves the
/// range of `i64` or of `chrono`.
pub fn time_after(now: i64, secs: i64) -> (r: Option<String>)
    ensures
        match r {
            Some(t) => i64::MIN <= now + secs <= i64::MAX && utc_datetime_text(now + secs) == Some(
                t@,
            ),
            None => !(i64::MIN <= now + secs <= i64::MAX) || utc_datetime_text(now + secs) is None,
        },
{
    let at = now.checked_add(secs)?;
    format_utc_timestamp(at)
}

/// The time, written as the database stores times, `secs` seconds from now.
pub fn time_from_now(secs: i64) -> (r: Option<String>)
    ensures
        r matches Some(t) ==> is_time_after(t@, secs),
{
    let now = unix_now();
    let r = time_after(now, secs);
    proof {
        if r is Some {
            assert(utc_datetime_text(now + secs) == Some(r->0@));
        }
    }
    r
}

// ----------------------------------------------------------------------
// Token pairs
// ----------------------------------------------------------------------

/// An access token and a refresh token issued together, with what the token
/// store keeps of the refresh token.
pub struct TokenPair {
    pub access_token: String,
    pub refresh_token: String,
    /// The id of the refresh token's row, carried as its `jti`.
    pub token_id: String,
    /// The stored hash of the refresh token.
    pub token_hash: String,
    /// When the refresh token's row expires.
    pub expires_at: String,
    /// The reading of the clock (seconds since the Unix epoch) from which
    /// the row's expiry was computed.
    pub issued_at: i64,
}

/// The error that answers a lifetime that the clock cannot hold.
fn expiry_error() -> (e: AppError)
    ensures
        e matches AppError::Internal(m) && m@ == "Failed to compute token expiry"@,
{
    AppError::Internal("Failed to compute token expiry".to_owned())
}

/// Creates an access/refresh token pair for a user, with what the token
/// store keeps of the refresh token; storing the row is the caller's part.
pub fn create_token_pair(config: &Config, user_id: &str, email: &str) -> (r: Result<
    TokenPair,
    AppError,
>)
    ensures
        r matches Ok(p) ==> {
            &&& is_issued_access_token(
                p.access_token@,
                user_id@,
                email@,
                config.jwt_secret@,
                config.jwt_access_expiry_secs,
            )
            &&& is_issued_refresh_token(
                p.refresh_token@,
                user_id@,
                p.token_id@,
                config.jwt_secret@,
                config.jwt_refresh_expiry_secs,
            )
            &&& issued_access_at(
                p.access_token@,
                user_id@,
                email@,
                config.jwt_secret@,
                config.jwt_access_expiry_secs,
                p.issued_at as usize,
            )
            &&& issued_refresh_at(
                p.refresh_token@,
                user_id@,
                p.token_id@,
                config.jwt_secret@,
                config.jwt_refresh_expiry_secs,
                p.issued_at as usize,
            )
            &&& is_uuid_v4_text(p.token_id@)
            &&& p.token_hash@ == token_hash_of(p.refresh_token@)
            &&& i64::MIN <= p.issued_at + config.jwt_refresh_expiry_secs <= i64::MAX
            &&& utc_datetime_text(p.issued_at + config.jwt_refresh_expiry_secs) == Some(
                p.expires_at@,
            )
        },
        r matches Err(e) ==> (e matches AppError::Internal(m) && (m@
            == "Failed to create access token: expiry out of range"@ || m@
            == "Failed to create refresh token: expiry out of range"@ || m@
            == "Failed to compute token expiry"@)),
{
    let token_id = new_record_id();
    let issued_at = unix_now();
    let access_token = create_access_token_at(
        user_id,
        email,
        config.jwt_secret.as_str(),
        config.jwt_access_expiry_secs,
        issued_at as usize,
    )?;
    let refresh_token = create_refresh_token_at(
        user_id,
        token_id.as_str(),
        config.jwt_secret.as_str(),
        config.jwt_refresh_expiry_secs,
        issued_at as usize,
    )?;
    let token_hash = sha256_hex(refresh_token.as_str());
    let expires_at = match time_after(issued_at, config.jwt_refresh_expiry_secs) {
        Some(t) => t,
        None => return Err(expiry_error()),
    };
    Ok(TokenPair { access_token, refresh_token, token_id, token_hash, expires_at, issued_at })
}

// ----------------------------------------------------------------------
// Registration
// ----------------------------------------------------------------------

/// The body of a registration request.
pub struct RegisterRequest {
    pub email: String,
    pub password: String,
}

/// The rules that a registration request breaks, in field order: the email
/// must be an address that `validator` accepts, the password must have 8 to
/// 128 characters and mix letters and digits.
pub open spec fn register_failures(email: Seq<char>, password: Seq<char>) -> Seq<Seq<char>> {
    (if validator_email(email) {
        Seq::empty()
    } else {
        seq![field_error("email"@, value_rule_error("email"@, email))]
    }) + password_failures("password"@, password)
}

impl RegisterRequest {
    /// Checks the request against its field rules.
    pub fn validate(&self) -> (r: Result<(), AppError>)
        ensures
            validation_outcome(register_failures(self.email@, self.password@), r),
    {
        let mut report = ValidationReport::new();
        if !is_valid_email(self.email.as_str()) {
            let rule = value_rule("email", self.email.as_str());
            report.fail("email", rule.as_str());
        }
        report.check_password("password", self.password.as_str());
        assert(report.failures() =~= register_failures(self.email@, self.password@));
        report.finish()
    }
}

/// The error that answers a failed insertion of a new user: a constraint
/// violation (the email is taken) is a conflict, anything else is internal
/// and carries the database's own text.
pub fn user_insert_error(constraint_violation: bool, detail: String) -> (e: AppError)
    ensures
        constraint_violation ==> (e matches AppError::Conflict(m) && m@
            == "Email already registered"@),
        !constraint_violation ==> e == AppError::Internal(detail),
{
    if constraint_violation {
        AppError::Conflict("Email already registered".to_owned())
    } else {
        AppError::Internal(detail)
    }
}

/// A piece of work that the registration handler asks for, or its final
/// outcome.
pub enum RegisterAction {
    /// Hash the password of the request.
    HashPassword { password: String },
    /// Insert a user row.
    InsertUser { user_id: String, email: String, password_hash: String },
    /// Read back the inserted user row.
    LoadUser { user_id: String },
    /// Issue a token pair for the new user.
    IssueTokens { user: UserResponse },
}

/// What the handler reports back to the registration.
pub enum RegisterEvent {
    /// The password hash.
    PasswordHashed(String),
    /// The insertion succeeded, or failed: `constraint_violation` tells a
    /// taken email from any other failure, described by `detail`.
    UserInserted(Result<(), (bool, String)>),
    /// The inserted row.
    UserLoaded(UserResponse),
}

/// Where a registration stands.
#[derive(PartialEq, Eq, Structural)]
pub enum RegisterStage {
    AwaitingHash,
    AwaitingInsert,
    AwaitingUser,
    Finished,
}

/// One registration: a valid request has its password hashed, a user row
/// inserted under a fresh id, read back, and then tokens issued.
pub struct RegisterFlow {
    stage: RegisterStage,
    user_id: String,
    email: String,
}

impl RegisterFlow {
    pub closed spec fn stage(&self) -> RegisterStage {
        self.stage
    }

    /// The id under which the user is inserted.
    pub closed spec fn user_id(&self) -> Seq<char> {
        self.user_id@
    }

    /// The email of the registration.
    pub closed spec fn email(&self) -> Seq<char> {
        self.email@
    }

    /// Starts a registration: an invalid request is refused at once; a valid
    /// one has its password hashed first and gets a fresh user id.
    pub fn begin(request: RegisterRequest) -> (r: Result<(RegisterFlow, RegisterAction), AppError>)
        ensures
            validation_outcome(
                register_failures(request.email@, request.password@),
                match r {
                    Ok(_) => Ok(()),
                    Err(e) => Err(e),
                },
            ),
            r matches Ok((flow, action)) ==> {
                &&& flow.stage() == RegisterStage::AwaitingHash
                &&& flow.email() == request.email@
                &&& is_uuid_v4_text(flow.user_id())
                &&& action matches RegisterAction::HashPassword { password } && password@
                    == request.password@
            },
    {
        request.validate()?;
        let user_id = new_record_id();
        Ok(
            (
                RegisterFlow { stage: RegisterStage::AwaitingHash, user_id, email: request.email },
                RegisterAction::HashPassword { password: request.password },
            ),
        )
    }

    /// Takes a report and answers the next piece of work, or the refusal of
    /// the registration.
    pub fn step(&mut self, event: RegisterEvent) -> (r: Result<RegisterAction, AppError>)
        ensures
            final(self).user_id() == old(self).user_id(),
            final(self).email() == old(self).email(),
            match (old(self).stage(), event) {
                (RegisterStage::AwaitingHash, RegisterEvent::PasswordHashed(hash)) => {
                    &&& final(self).stage() == RegisterStage::AwaitingInsert
                    &&& r matches Ok(RegisterAction::InsertUser { user_id, email, password_hash })
                        && user_id@ == old(self).user_id() && email@ == old(self).email()
                        && password_hash == hash
                },
                (RegisterStage::AwaitingInsert, RegisterEvent::UserInserted(outcome)) => match outcome {
                    Ok(()) => {
                        &&& final(self).stage() == RegisterStage::AwaitingUser
                        &&& r matches Ok(RegisterAction::LoadUser { user_id }) && user_id@ == old(
                            self,
                        ).user_id()
                    },
                    Err((constraint_violation, detail)) => {
                        &&& final(self).stage() == RegisterStage::Finished
                        &&& constraint_violation ==> (r matches Err(AppError::Conflict(m)) && m@
                            == "Email already registered"@)
                        &&& !constraint_violation ==> r == Err::<RegisterAction, AppError>(
                            AppError::Internal(detail),
                        )
                    },
                },
                (RegisterStage::AwaitingUser, RegisterEvent::UserLoaded(user)) => {
                    &&& final(self).stage() == RegisterStage::Finished
                    &&& r == Ok::<RegisterAction, AppError>(RegisterAction::IssueTokens { user })
                },
                _ => {
                    &&& final(self).stage() == RegisterStage::Finished
                    &&& r matches Err(AppError::Internal(_))
                },
            },
    {
        let stage = match self.stage {
            RegisterStage::AwaitingHash => RegisterStage::AwaitingHash,
            RegisterStage::AwaitingInsert => RegisterStage::AwaitingInsert,
            RegisterStage::AwaitingUser => RegisterStage::AwaitingUser,
            RegisterStage::Finished => RegisterStage::Finished,
        };
        self.stage = RegisterStage::Finished;
        match (stage, event) {
            (RegisterStage::AwaitingHash, RegisterEvent::PasswordHashed(password_hash)) => {
                self.stage = RegisterStage::AwaitingInsert;
                Ok(
                    RegisterAction::InsertUser {
                        user_id: self.user_id.clone(),
                        email: self.email.clone(),
                        password_hash,
                    },
                )
            },
            (RegisterStage::AwaitingInsert, RegisterEvent::UserInserted(outcome)) => match outcome {
                Ok(()) => {
                    self.stage = RegisterStage::AwaitingUser;
                    Ok(RegisterAction::LoadUser { user_id: self.user_id.clone() })
                },
                Err((constraint_violation, detail)) => Err(
                    user_insert_error(constraint_violation, detail),
                ),
            },
            (RegisterStage::AwaitingUser, RegisterEvent::UserLoaded(user)) => {
                Ok(RegisterAction::IssueTokens { user })
            },
            _ => Err(AppError::Internal("Registration steps out of order".to_owned())),
        }
    }
}

// ----------------------------------------------------------------------
// Login
// ----------------------------------------------------------------------

/// The body of a login request.
pub struct LoginRequest {
    pub email: String,
    pub password: String,
}

/// A user row as login reads it.
pub struct StoredUser {
    pub id: String,
    pub email: String,
    pub password_hash: String,
    pub created_at: String,
}

/// Why a login is refused.
pub enum LoginFailure {
    UnknownEmail,
    WrongPassword,
}

/// The text that answers a refused login, whatever the reason.
pub open spec fn login_failure_text(reason: LoginFailure) -> Seq<char> {
    match reason {
        LoginFailure::UnknownEmail => "Invalid email or password"@,
        LoginFailure::WrongPassword => "Invalid email or password"@,
    }
}

/// Whether `e` is the error that refuses a login for `reason`.
pub open spec fn is_login_refusal(e: AppError, reason: LoginFailure) -> bool {
    e matches AppError::Unauthorized(m) && m@ == login_failure_text(reason)
}

/// The refusal of a login.
fn login_refusal() -> (e: AppError)
    ensures
        is_login_refusal(e, LoginFailure::UnknownEmail),
        is_login_refusal(e, LoginFailure::WrongPassword),
{
    AppError::Unauthorized("Invalid email or password".to_owned())
}

/// Decides on the user row found for the login email: none refuses the login.
pub fn login_user_found(found: Option<StoredUser>) -> (r: Result<StoredUser, AppError>)
    ensures
        found is None ==> (r matches Err(e) && is_login_refusal(e, LoginFailure::UnknownEmail)),
        found matches Some(u) ==> r == Ok::<StoredUser, AppError>(u),
{
    match found {
        Some(u) => Ok(u),
        None => Err(login_refusal()),
    }
}

/// Decides on the password check of a found user: a mismatch refuses the
/// login, a match lets tokens be issued for the user.
pub fn login_password_checked(user: StoredUser, password_matches: bool) -> (r: Result<
    StoredUser,
    AppError,
>)
    ensures
        !password_matches ==> (r matches Err(e) && is_login_refusal(e, LoginFailure::WrongPassword)),
        password_matches ==> r == Ok::<StoredUser, AppError>(user),
{
    if password_matches {
        Ok(user)
    } else {
        Err(login_refusal())
    }
}

/// A piece of work that the login handler asks for, or its final outcome.
pub enum LoginAction {
    /// Read the user row of `email`.
    LoadUser { email: String },
    /// Check `password` against the stored hash.
    CheckPassword { password: String, password_hash: String },
    /// Issue a token pair for the user.
    IssueTokens { user: StoredUser },
}

/// What the handler reports back to the login.
pub enum LoginEvent {
    /// The user row of the email, if there is one.
    UserLoaded(Option<StoredUser>),
    /// Whether the password matched the stored hash.
    PasswordChecked(bool),
}

/// Where a login stands.
#[derive(PartialEq, Eq, Structural)]
pub enum LoginStage {
    AwaitingUser,
    AwaitingPasswordCheck,
    Finished,
}

/// One login: it asks for the user row of the email, then for a check of
/// the password against that row's hash, and only then lets tokens be issued
/// for that user.
pub struct LoginFlow {
    stage: LoginStage,
    password: String,
    user: Option<StoredUser>,
}

impl LoginFlow {
    pub closed spec fn stage(&self) -> LoginStage {
        self.stage
    }

    /// The user row loaded so far, if any.
    pub closed spec fn loaded_user(&self) -> Option<StoredUser> {
        self.user
    }

    /// The password presented for the login.
    pub closed spec fn password(&self) -> Seq<char> {
        self.password@
    }

    /// The loaded user is known exactly while its password is checked.
    #[verifier::type_invariant]
    spec fn wf(&self) -> bool {
        self.stage == LoginStage::AwaitingPasswordCheck ==> self.user is Some
    }

    /// Starts a login: the user row of the email is asked for first.
    pub fn begin(request: LoginRequest) -> (r: (LoginFlow, LoginAction))
        ensures
            r.0.stage() == LoginStage::AwaitingUser,
            r.0.password() == request.password@,
            r.0.loaded_user() is None,
            r.1 matches LoginAction::LoadUser { email } && email@ == request.email@,
    {
        (
            LoginFlow { stage: LoginStage::AwaitingUser, password: request.password, user: None },
            LoginAction::LoadUser { email: request.email },
        )
    }

    /// Takes a report and answers the next piece of work, or the refusal of
    /// the login.
    pub fn step(&mut self, event: LoginEvent) -> (r: Result<LoginAction, AppError>)
        ensures
            final(self).password() == old(self).password(),
            match (old(self).stage(), event) {
                (LoginStage::AwaitingUser, LoginEvent::UserLoaded(found)) => match found {
                    None => {
                        &&& final(self).stage() == LoginStage::Finished
                        &&& r matches Err(e) && is_login_refusal(e, LoginFailure::UnknownEmail)
                    },
                    Some(user) => {
                        &&& final(self).stage() == LoginStage::AwaitingPasswordCheck
                        &&& final(self).loaded_user() == Some(user)
                        &&& r matches Ok(LoginAction::CheckPassword { password, password_hash })
                            && password@ == old(self).password() && password_hash
                            == user.password_hash
                    },
                },
                (LoginStage::AwaitingPasswordCheck, LoginEvent::PasswordChecked(matches)) => {
                    &&& final(self).stage() == LoginStage::Finished
                    &&& if matches {
                        r matches Ok(LoginAction::IssueTokens { user }) && Some(user)
                            == old(self).loaded_user()
                    } else {
                        r matches Err(e) && is_login_refusal(e, LoginFailure::WrongPassword)
                    }
                },
                _ => {
                    &&& final(self).stage() == LoginStage::Finished
                    &&& r matches Err(AppError::Internal(_))
                },
            },
            r matches Ok(LoginAction::IssueTokens { user }) ==> (old(self).stage()
                == LoginStage::AwaitingPasswordCheck && event == LoginEvent::PasswordChecked(true)
                && Some(user) == old(self).loaded_user()),
    {
        proof {
            use_type_invariant(&*self);
        }
        let stage = match self.stage {
            LoginStage::AwaitingUser => LoginStage::AwaitingUser,
            LoginStage::AwaitingPasswordCheck => LoginStage::AwaitingPasswordCheck,
            LoginStage::Finished => LoginStage::Finished,
        };
        self.stage = LoginStage::Finished;
        match (stage, event) {
            (LoginStage::AwaitingUser, LoginEvent::UserLoaded(found)) => {
                let user = login_user_found(found)?;
                let action = LoginAction::CheckPassword {
                    password: self.password.clone(),
                    password_hash: user.password_hash.clone(),
                };
                self.user = Some(user);
                self.stage = LoginStage::AwaitingPasswordCheck;
                Ok(action)
            },
            (LoginStage::AwaitingPasswordCheck, LoginEvent::PasswordChecked(matches)) => {
                let user = match &self.user {
                    Some(u) => StoredUser {
                        id: u.id.clone(),
                        email: u.email.clone(),
                        password_hash: u.password_hash.clone(),
                        created_at: u.created_at.clone(),
                    },
                    None => return Err(AppError::Internal("Login steps out of order".to_owned())),
                };
                self.user = None;
                let user = login_password_checked(user, matches)?;
                Ok(LoginAction::IssueTokens { user })
            },
            _ => Err(AppError::Internal("Login steps out of order".to_owned())),
        }
    }
}

/// A refused login does not tell an unknown email from a wrong password: the
/// two are answered with the same error.
pub proof fn login_refusals_indistinguishable(e: AppError)
    ensures
        is_login_refusal(e, LoginFailure::UnknownEmail) <==> is_login_refusal(
            e,
            LoginFailure::WrongPassword,
        ),
        login_failure_text(LoginFailure::UnknownEmail) == login_failure_text(
            LoginFailure::WrongPassword,
        ),
{
}

// ----------------------------------------------------------------------
// Refresh
// ----------------------------------------------------------------------

/// The body of a refresh request.
pub struct RefreshRequest {
    pub refresh_token: String,
}

/// A refresh token as presented: its verified claims and its stored hash.
pub struct PresentedRefreshToken {
    pub claims: RefreshClaims,
    pub token_hash: String,
}

impl RefreshRequest {
    /// Verifies the presented refresh token and computes the hash under
    /// which the store keeps it.
    pub fn check_token(&self, secret: &str) -> (r: Result<PresentedRefreshToken, AppError>)
        ensures
            r matches Ok(p) ==> p.claims.token_type@ == "refresh"@ && p.token_hash@
                == token_hash_of(self.refresh_token@),
            r matches Err(e) ==> e is Unauthorized,
            r is Ok ==> hs256_signature_valid(self.refresh_token@, secret@),
            forall|u: Seq<char>, id: Seq<char>, x: i64|
                #![trigger is_issued_refresh_token(self.refresh_token@, u, id, secret@, x)]
                is_issued_refresh_token(self.refresh_token@, u, id, secret@, x) && r is Ok ==> (r matches Ok(p)
                    && p.claims.sub@ == u && p.claims.jti@ == id),
    {
        let claims = verify_refresh_token(self.refresh_token.as_str(), secret)?;
        let token_hash = sha256_hex(self.refresh_token.as_str());
        Ok(PresentedRefreshToken { claims, token_hash })
    }
}

/// The stored row of a refresh token, found by its id.
pub struct RefreshTokenRecord {
    pub user_id: String,
    pub token_hash: String,
    pub revoked: bool,
    /// When the row expires, written as the database stores times.
    pub expires_at: String,
}

/// The view of a stored refresh-token row.
pub struct RefreshRow {
    pub user_id: Seq<char>,
    pub token_hash: Seq<char>,
    pub revoked: bool,
    pub expires_at: Seq<char>,
}

impl View for RefreshTokenRecord {
    type V = RefreshRow;

    open spec fn view(&self) -> RefreshRow {
        RefreshRow {
            user_id: self.user_id@,
            token_hash: self.token_hash@,
            revoked: self.revoked,
            expires_at: self.expires_at@,
        }
    }
}

/// Whether two texts first differ at `k`, with `a` the smaller there: `a`
/// ends at `k` while `b` goes on, or both go on and `a`'s character at `k`
/// has the lower code.
pub open spec fn first_difference_below(a: Seq<char>, b: Seq<char>, k: int) -> bool {
    &&& 0 <= k <= a.len()
    &&& k <= b.len()
    &&& forall|j: int| 0 <= j < k ==> a[j] == b[j]
    &&& (k == a.len() && k < b.len()) || (k < a.len() && k < b.len() && (a[k] as u32) < (
    b[k] as u32))
}

/// Whether `a` sorts strictly before `b`, character by character. Times
/// written as the database stores them (`%Y-%m-%d %H:%M:%S`, fixed width)
/// sort in this order as they follow in time.
pub open spec fn text_before(a: Seq<char>, b: Seq<char>) -> bool {
    exists|k: int| #[trigger] first_difference_below(a, b, k)
}

/// The order of texts is the character order of their first difference: a
/// text sorts before any longer text that it begins, a text whose first
/// character has the lower code sorts first, a common first character is
/// passed over, and no text sorts before itself or before a text that sorts
/// before it.
pub proof fn text_order_laws(a: Seq<char>, b: Seq<char>, c: char)
    ensures
        a.len() < b.len() && a == b.take(a.len() as int) ==> text_before(a, b),
        a.len() > 0 && b.len() > 0 && (a[0] as u32) < (b[0] as u32) ==> text_before(a, b),
        text_before(seq![c] + a, seq![c] + b) <==> text_before(a, b),
        !text_before(a, a),
        text_before(a, b) ==> !text_before(b, a),
{
    if a.len() < b.len() && a == b.take(a.len() as int) {
        assert(first_difference_below(a, b, a.len() as int));
    }
    if a.len() > 0 && b.len() > 0 && (a[0] as u32) < (b[0] as u32) {
        assert(first_difference_below(a, b, 0));
    }
    let ca = seq![c] + a;
    let cb = seq![c] + b;
    if text_before(a, b) {
        let k = choose|k: int| #[trigger] first_difference_below(a, b, k);
        assert(first_difference_below(ca, cb, k + 1)) by {
            assert forall|j: int| 0 <= j < k + 1 implies ca[j] == cb[j] by {
                if j > 0 {
                    assert(ca[j] == a[j - 1] && cb[j] == b[j - 1]);
                }
            }
        }
    }
    if text_before(ca, cb) {
        let k = choose|k: int| #[trigger] first_difference_below(ca, cb, k);
        assert(k >= 1) by {
            if k == 0 {
                assert(ca[0] == cb[0]);
            }
        }
        assert(first_difference_below(a, b, k - 1)) by {
            assert forall|j: int| 0 <= j < k - 1 implies a[j] == b[j] by {
                assert(ca[j + 1] == cb[j + 1]);
            }
        }
    }
    if text_before(a, a) {
        let k = choose|k: int| #[trigger] first_difference_below(a, a, k);
    }
    if text_before(a, b) && text_before(b, a) {
        let k = choose|k: int| #[trigger] first_difference_below(a, b, k);
        let m = choose|m: int| #[trigger] first_difference_below(b, a, m);
        if k < m {
            assert(b[k] == a[k]);
        } else if m < k {
            assert(a[m] == b[m]);
        }
    }
}

/// The characters of a text, one by one.
fn chars_of(s: &str) -> (v: Vec<char>)
    ensures
        v@ == s@,
{
    let mut v: Vec<char> = Vec::new();
    let ghost chars = s@;
    for c in iter: s.chars()
        invariant
            iter.seq() == chars,
            v@ == chars.take(iter.index() as int),
    {
        proof {
            assert(chars.take(iter.index() as int + 1) =~= v@.push(c));
        }
        v.push(c);
    }
    assert(chars.take(chars.len() as int) =~= chars);
    v
}

/// Whether `a` sorts strictly before `b`, character by character.
pub fn is_text_before(a: &str, b: &str) -> (r: bool)
    ensures
        r == text_before(a@, b@),
{
    let x = chars_of(a);
    let y = chars_of(b);
    let mut i: usize = 0;
    while i < x.len() && i < y.len()
        invariant
            i <= x.len(),
            i <= y.len(),
            x@ == a@,
            y@ == b@,
            forall|j: int| 0 <= j < i ==> x@[j] == y@[j],
        decreases x.len() - i,
    {
        if x[i] != y[i] {
            let below = (x[i] as u32) < (y[i] as u32);
            proof {
                if below {
                    assert(first_difference_below(a@, b@, i as int));
                } else {
                    assert forall|k: int| !first_difference_below(a@, b@, k) by {
                        if first_difference_below(a@, b@, k) && k > i {
                            assert(a@[i as int] == b@[i as int]);
                        }
                    }
                }
            }
            return below;
        }
        i = i + 1;
    }
    let shorter = i == x.len() && i < y.len();
    proof {
        if shorter {
            assert(first_difference_below(a@, b@, i as int));
        } else {
            assert forall|k: int| !first_difference_below(a@, b@, k) by {
                if first_difference_below(a@, b@, k) && k < i {
                    assert(a@[k] == b@[k]);
                }
            }
        }
    }
    shorter
}

/// Whether two texts are equal, found without stopping at the first
/// difference: every character of texts of equal length is compared, so the
/// time taken does not tell where a stored hash and a presented one differ.
pub fn texts_equal_in_full(a: &str, b: &str) -> (r: bool)
    ensures
        r == (a@ == b@),
{
    let x = chars_of(a);
    let y = chars_of(b);
    if x.len() != y.len() {
        proof {
            assert(a@.len() != b@.len());
        }
        return false;
    }
    let mut diff: u32 = 0;
    let mut i: usize = 0;
    while i < x.len()
        invariant
            i <= x.len(),
            x.len() == y.len(),
            x@ == a@,
            y@ == b@,
            (diff == 0) == (forall|j: int| 0 <= j < i ==> x@[j] == y@[j]),
        decreases x.len() - i,
    {
        let d: u32 = (x[i] != y[i]) as u32;
        let next = diff | d;
        proof {
            assert(next == 0 <==> (diff == 0 && d == 0)) by (bit_vector)
                requires
                    next == diff | d,
            ;
        }
        diff = next;
        i = i + 1;
    }
    proof {
        if diff == 0 {
            assert(a@ =~= b@);
        }
    }
    diff == 0
}

/// What the store's row says of a presented refresh token of user `sub`
/// whose hash is `presented_hash`, at the time `now`: `None` accepts it,
/// `Some(text)` refuses it with that text. A missing row, a revoked row, a
/// row whose expiry lies before `now`, another hash and another user are
/// refused, checked in that order.
pub open spec fn refresh_verdict(
    sub: Seq<char>,
    presented_hash: Seq<char>,
    now: Seq<char>,
    row: Option<RefreshRow>,
) -> Option<Seq<char>> {
    match row {
        None => Some("Invalid refresh token"@),
        Some(row) => if row.revoked {
            Some("Refresh token has been revoked"@)
        } else if text_before(row.expires_at, now) {
            Some("Token expired"@)
        } else if row.token_hash != presented_hash {
            Some("Invalid refresh token"@)
        } else if row.user_id != sub {
            Some("Token user mismatch"@)
        } else {
            None
        },
    }
}

/// What an accepted refresh does next: revoke the presented token's row, then
/// issue a new pair for its user.
pub struct RefreshRotation {
    pub revoke_token_id: String,
    pub user_id: String,
}

/// Decides on the stored row of a presented refresh token at the time
/// `now`, written as the database stores times.
pub fn check_refresh_record(
    presented: &PresentedRefreshToken,
    now: &str,
    record: Option<RefreshTokenRecord>,
) -> (r: Result<RefreshRotation, AppError>)
    ensures
        match refresh_verdict(
            presented.claims.sub@,
            presented.token_hash@,
            now@,
            match record {
                Some(rec) => Some(rec@),
                None => None,
            },
        ) {
            None => r matches Ok(rot) && rot.revoke_token_id@ == presented.claims.jti@
                && rot.user_id@ == presented.claims.sub@,
            Some(text) => r matches Err(AppError::Unauthorized(m)) && m@ == text,
        },
{
    let rec = match record {
        None => return Err(AppError::Unauthorized("Invalid refresh token".to_owned())),
        Some(rec) => rec,
    };
    if rec.revoked {
        return Err(AppError::Unauthorized("Refresh token has been revoked".to_owned()));
    }
    if is_text_before(rec.expires_at.as_str(), now) {
        return Err(AppError::Unauthorized("Token expired".to_owned()));
    }
    if !texts_equal_in_full(rec.token_hash.as_str(), presented.token_hash.as_str()) {
        return Err(AppError::Unauthorized("Invalid refresh token".to_owned()));
    }
    if rec.user_id != presented.claims.sub {
        return Err(AppError::Unauthorized("Token user mismatch".to_owned()));
    }
    Ok(RefreshRotation {
        revoke_token_id: presented.claims.jti.clone(),
        user_id: presented.claims.sub.clone(),
    })
}

/// Decides on the email found for the refreshing user: none refuses.
pub fn refresh_user_email(found: Option<String>) -> (r: Result<String, AppError>)
    ensures
        found is None ==> (r matches Err(AppError::Unauthorized(m)) && m@ == "User not found"@),
        found matches Some(e) ==> r == Ok::<String, AppError>(e),
{
    match found {
        Some(e) => Ok(e),
        None => Err(AppError::Unauthorized("User not found".to_owned())),
    }
}

/// A piece of work that the refresh handler asks of the database, or its
/// final outcome.
pub enum RefreshAction {
    /// Read the stored row of the refresh token `token_id`.
    LoadRecord { token_id: String },
    /// Mark the row of the refresh token `token_id` revoked.
    RevokeToken { token_id: String },
    /// Read the email of the user `user_id`.
    LoadEmail { user_id: String },
    /// Issue a new token pair for the user.
    IssueTokens { user_id: String, email: String },
}

/// What the database reports back to the refresh handler.
pub enum RefreshEvent {
    /// The row of the presented token, if there is one.
    RecordLoaded(Option<RefreshTokenRecord>),
    /// The presented token's row has been revoked.
    TokenRevoked,
    /// The email of the token's user, if the user still exists.
    EmailLoaded(Option<String>),
}

/// Where a refresh stands.
#[derive(PartialEq, Eq, Structural)]
pub enum RefreshStage {
    AwaitingRecord,
    AwaitingRevocation,
    AwaitingEmail,
    Finished,
}

/// The refresh of one presented token: it asks for the token's row, checks
/// it, asks for its revocation, asks for the user's email and only then lets
/// a new pair be issued.
pub struct RefreshFlow {
    stage: RefreshStage,
    presented: PresentedRefreshToken,
    now: String,
    revoked: bool,
}

impl RefreshFlow {
    pub closed spec fn stage(&self) -> RefreshStage {
        self.stage
    }

    /// The id of the presented token's row.
    pub closed spec fn token_id(&self) -> Seq<char> {
        self.presented.claims.jti@
    }

    /// The user that the presented token names.
    pub closed spec fn user_id(&self) -> Seq<char> {
        self.presented.claims.sub@
    }

    /// The hash of the presented token.
    pub closed spec fn presented_hash(&self) -> Seq<char> {
        self.presented.token_hash@
    }

    /// The time of the refresh, written as the database stores times.
    pub closed spec fn now(&self) -> Seq<char> {
        self.now@
    }

    /// Whether the presented token's row has been revoked in this refresh.
    pub closed spec fn has_revoked(&self) -> bool {
        self.revoked
    }

    /// The stages reached so far agree: the row is not revoked before the
    /// revocation step and is revoked after it.
    #[verifier::type_invariant]
    spec fn wf(&self) -> bool {
        &&& (self.stage == RefreshStage::AwaitingRecord || self.stage
            == RefreshStage::AwaitingRevocation) ==> !self.revoked
        &&& self.stage == RefreshStage::AwaitingEmail ==> self.revoked
    }

    /// Starts the refresh of a presented token at the time `now`: its row
    /// is asked for first.
    pub fn begin(presented: PresentedRefreshToken, now: String) -> (r: (RefreshFlow, RefreshAction))
        ensures
            r.0.stage() == RefreshStage::AwaitingRecord,
            r.0.now() == now@,
            r.0.token_id() == presented.claims.jti@,
            r.0.user_id() == presented.claims.sub@,
            r.0.presented_hash() == presented.token_hash@,
            r.1 matches RefreshAction::LoadRecord { token_id } && token_id@ == presented.claims.jti@,
    {
        let token_id = presented.claims.jti.clone();
        (
            RefreshFlow { stage: RefreshStage::AwaitingRecord, presented, now, revoked: false },
            RefreshAction::LoadRecord { token_id },
        )
    }

    /// Takes the report of the database and answers the next piece of work,
    /// or the refusal of the refresh.
    pub fn step(&mut self, event: RefreshEvent) -> (r: Result<RefreshAction, AppError>)
        ensures
            final(self).token_id() == old(self).token_id(),
            final(self).user_id() == old(self).user_id(),
            final(self).presented_hash() == old(self).presented_hash(),
            final(self).now() == old(self).now(),
            final(self).has_revoked() == (old(self).has_revoked() || (old(self).stage()
                == RefreshStage::AwaitingRevocation && event is TokenRevoked)),
            match (old(self).stage(), event) {
                (RefreshStage::AwaitingRecord, RefreshEvent::RecordLoaded(record)) => match refresh_verdict(
                    old(self).user_id(),
                    old(self).presented_hash(),
                    old(self).now(),
                    match record {
                        Some(rec) => Some(rec@),
                        None => None,
                    },
                ) {
                    None => {
                        &&& final(self).stage() == RefreshStage::AwaitingRevocation
                        &&& r matches Ok(RefreshAction::RevokeToken { token_id }) && token_id@
                            == old(self).token_id()
                    },
                    Some(text) => {
                        &&& final(self).stage() == RefreshStage::Finished
                        &&& r matches Err(AppError::Unauthorized(m)) && m@ == text
                    },
                },
                (RefreshStage::AwaitingRevocation, RefreshEvent::TokenRevoked) => {
                    &&& final(self).stage() == RefreshStage::AwaitingEmail
                    &&& final(self).has_revoked()
                    &&& r matches Ok(RefreshAction::LoadEmail { user_id }) && user_id@
                        == old(self).user_id()
                },
                (RefreshStage::AwaitingEmail, RefreshEvent::EmailLoaded(found)) => {
                    &&& final(self).stage() == RefreshStage::Finished
                    &&& match found {
                        Some(email) => r matches Ok(RefreshAction::IssueTokens { user_id, email: e })
                            && user_id@ == old(self).user_id() && e@ == email@,
                        None => r matches Err(AppError::Unauthorized(m)) && m@ == "User not found"@,
                    }
                },
                _ => {
                    &&& final(self).stage() == RefreshStage::Finished
                    &&& r matches Err(AppError::Internal(_))
                },
            },
            r matches Ok(RefreshAction::IssueTokens { .. }) ==> final(self).has_revoked(),
    {
        proof {
            use_type_invariant(&*self);
        }
        let stage = match self.stage {
            RefreshStage::AwaitingRecord => RefreshStage::AwaitingRecord,
            RefreshStage::AwaitingRevocation => RefreshStage::AwaitingRevocation,
            RefreshStage::AwaitingEmail => RefreshStage::AwaitingEmail,
            RefreshStage::Finished => RefreshStage::Finished,
        };
        self.stage = RefreshStage::Finished;
        match (stage, event) {
            (RefreshStage::AwaitingRecord, RefreshEvent::RecordLoaded(record)) => {
                let rotation = check_refresh_record(&self.presented, self.now.as_str(), record)?;
                self.stage = RefreshStage::AwaitingRevocation;
                Ok(RefreshAction::RevokeToken { token_id: rotation.revoke_token_id })
            },
            (RefreshStage::AwaitingRevocation, RefreshEvent::TokenRevoked) => {
                self.revoked = true;
                self.stage = RefreshStage::AwaitingEmail;
                Ok(RefreshAction::LoadEmail { user_id: self.presented.claims.sub.clone() })
            },
            (RefreshStage::AwaitingEmail, RefreshEvent::EmailLoaded(found)) => {
                let email = refresh_user_email(found)?;
                Ok(RefreshAction::IssueTokens { user_id: self.presented.claims.sub.clone(), email })
            },
            _ => Err(AppError::Internal("Refresh steps out of order".to_owned())),
        }
    }
}

/// A refresh token is good for one refresh: a row that accepted it, once
/// revoked as the rotation does, refuses it, at any later time.
pub proof fn refresh_token_single_use(
    sub: Seq<char>,
    presented_hash: Seq<char>,
    now: Seq<char>,
    later: Seq<char>,
    row: RefreshRow,
)
    requires
        refresh_verdict(sub, presented_hash, now, Some(row)) is None,
    ensures
        refresh_verdict(sub, presented_hash, later, Some(RefreshRow { revoked: true, ..row }))
            == Some("Refresh token has been revoked"@),
{
}

/// The row that a store of refresh-token rows, keyed by token id, holds
/// for `id`.
pub open spec fn stored_row(store: Map<Seq<char>, RefreshRow>, id: Seq<char>) -> Option<RefreshRow> {
    if store.dom().contains(id) {
        Some(store[id])
    } else {
        None
    }
}

/// The store after the revocation that an accepted refresh asks for: the
/// row of `id`, if any, is marked revoked and every other row is kept.
pub open spec fn revoke_stored(store: Map<Seq<char>, RefreshRow>, id: Seq<char>) -> Map<
    Seq<char>,
    RefreshRow,
> {
    if store.dom().contains(id) {
        store.insert(id, RefreshRow { revoked: true, ..store[id] })
    } else {
        store
    }
}

/// Single use over the whole store: once a refresh of token `id` has been
/// accepted and its row revoked, every later presentation of that token is
/// refused, whoever presents it, while the rows of other tokens are left as
/// they were.
pub proof fn refresh_single_use_in_store(
    store: Map<Seq<char>, RefreshRow>,
    id: Seq<char>,
    sub: Seq<char>,
    presented_hash: Seq<char>,
    now: Seq<char>,
    later_sub: Seq<char>,
    later_hash: Seq<char>,
    later: Seq<char>,
)
    requires
        refresh_verdict(sub, presented_hash, now, stored_row(store, id)) is None,
    ensures
        refresh_verdict(later_sub, later_hash, later, stored_row(revoke_stored(store, id), id))
            == Some("Refresh token has been revoked"@),
        forall|other: Seq<char>|
            other != id ==> #[trigger] stored_row(revoke_stored(store, id), other) == stored_row(
                store,
                other,
            ),
{
}

/// The row stored for a new pair accepts the pair's refresh token until it
/// expires: a row that is not revoked, keeps the token's hash, names its user
/// and whose expiry does not lie before `now` accepts the token presented for
/// that user.
pub proof fn fresh_row_accepts_its_token(
    user_id: Seq<char>,
    refresh_token: Seq<char>,
    expires_at: Seq<char>,
    now: Seq<char>,
)
    requires
        !text_before(expires_at, now),
    ensures
        refresh_verdict(
            user_id,
            token_hash_of(refresh_token),
            now,
            Some(
                RefreshRow {
                    user_id,
                    token_hash: token_hash_of(refresh_token),
                    revoked: false,
                    expires_at,
                },
            ),
        ) is None,
{
}

/// A revoked row refuses every presentation of its token, whoever presents
/// it, whenever, and whatever else the row holds.
pub proof fn revoked_row_refuses(
    sub: Seq<char>,
    presented_hash: Seq<char>,
    now: Seq<char>,
    row: RefreshRow,
)
    requires
        row.revoked,
    ensures
        refresh_verdict(sub, presented_hash, now, Some(row)) == Some(
            "Refresh token has been revoked"@,
        ),
{
}

/// An unrevoked row whose expiry lies before the time of the refresh refuses
/// the token as expired, whoever presents it and whatever hash it carries.
pub proof fn expired_row_refuses(
    sub: Seq<char>,
    presented_hash: Seq<char>,
    now: Seq<char>,
    row: RefreshRow,
)
    requires
        !row.revoked,
        text_before(row.expires_at, now),
    ensures
        refresh_verdict(sub, presented_hash, now, Some(row)) == Some("Token expired"@),
{
}

/// Only the token whose hash the row keeps, presented for the row's user
/// before the row expires, is accepted.
pub proof fn refresh_accepts_only_stored_token(
    sub: Seq<char>,
    presented_hash: Seq<char>,
    now: Seq<char>,
    row: RefreshRow,
)
    requires
        refresh_verdict(sub, presented_hash, now, Some(row)) is None,
    ensures
        !row.revoked,
        !text_before(row.expires_at, now),
        row.token_hash == presented_hash,
        row.user_id == sub,
{
}

// ----------------------------------------------------------------------
// Forgotten password
// ----------------------------------------------------------------------

/// The body of a request for a password-reset email.
pub struct ForgotPasswordRequest {
    pub email: String,
}

/// The rules that a forgotten-password request breaks: the email must be an
/// address that `validator` accepts.
pub open spec fn forgot_password_failures(email: Seq<char>) -> Seq<Seq<char>> {
    if validator_email(email) {
        Seq::empty()
    } else {
        seq![field_error("email"@, value_rule_error("email"@, email))]
    }
}

impl ForgotPasswordRequest {
    /// Checks the request against its field rule.
    pub fn validate(&self) -> (r: Result<(), AppError>)
        ensures
            validation_outcome(forgot_password_failures(self.email@), r),
    {
        let mut report = ValidationReport::new();
        if !is_valid_email(self.email.as_str()) {
            let rule = value_rule("email", self.email.as_str());
            report.fail("email", rule.as_str());
        }
        assert(report.failures() =~= forgot_password_failures(self.email@));
        report.finish()
    }
}

/// A password-reset token: the raw token that the email carries, the hash
/// under which its row is stored, the row's id and its expiry time.
pub struct ResetTicket {
    pub raw_token: String,
    pub token_hash: String,
    pub token_id: String,
    pub expires_at: String,
    /// The reading of the clock (seconds since the Unix epoch) from which
    /// the token's expiry was computed.
    pub issued_at: i64,
}

/// How long a password-reset token lives, in seconds.
pub const RESET_TOKEN_LIFETIME_SECS: i64 = 3600;

/// Draws a fresh password-reset token issued at the time `now` (seconds
/// since the Unix epoch): it expires an hour after `now`.
pub fn new_reset_ticket_at(now: i64) -> (r: Result<ResetTicket, AppError>)
    ensures
        r matches Ok(t) ==> {
            &&& is_uuid_v4_text(t.raw_token@)
            &&& is_uuid_v4_text(t.token_id@)
            &&& t.token_hash@ == token_hash_of(t.raw_token@)
            &&& t.issued_at == now
            &&& utc_datetime_text(now + RESET_TOKEN_LIFETIME_SECS) == Some(t.expires_at@)
        },
        r is Err <==> !(now + RESET_TOKEN_LIFETIME_SECS <= i64::MAX) || utc_datetime_text(
            now + RESET_TOKEN_LIFETIME_SECS,
        ) is None,
        r matches Err(e) ==> (e matches AppError::Internal(m) && m@ == "Failed to compute token expiry"@),
{
    let raw_token = new_record_id();
    let token_hash = sha256_hex(raw_token.as_str());
    let token_id = new_record_id();
    let expires_at = match time_after(now, RESET_TOKEN_LIFETIME_SECS) {
        Some(t) => t,
        None => return Err(expiry_error()),
    };
    Ok(ResetTicket { raw_token, token_hash, token_id, expires_at, issued_at: now })
}

/// Draws a fresh password-reset token that expires an hour from now: the
/// clock is read once and the ticket is the one `new_reset_ticket_at` draws
/// at that reading.
pub fn new_reset_ticket() -> (r: Result<ResetTicket, AppError>)
    ensures
        r matches Ok(t) ==> {
            &&& is_uuid_v4_text(t.raw_token@)
            &&& is_uuid_v4_text(t.token_id@)
            &&& t.token_hash@ == token_hash_of(t.raw_token@)
            &&& i64::MIN <= t.issued_at + RESET_TOKEN_LIFETIME_SECS <= i64::MAX
            &&& utc_datetime_text(t.issued_at + RESET_TOKEN_LIFETIME_SECS) == Some(t.expires_at@)
        },
        r matches Err(e) ==> e is Internal,
{
    let now = unix_now();
    new_reset_ticket_at(now)
}

/// The text that answers every valid forgotten-password request.
pub const FORGOT_PASSWORD_MESSAGE: &'static str =
    "If an account with that email exists, a reset link has been sent.";

/// The text that answers a valid forgotten-password request, given whether
/// an account has the email.
pub open spec fn forgot_password_reply_text(account_found: bool) -> Seq<char> {
    FORGOT_PASSWORD_MESSAGE@
}

/// What follows a forgotten-password lookup: the reply, and whether to store
/// the reset token and send the email.
pub struct ForgotPasswordReply {
    pub message: String,
    pub send_reset: bool,
}

/// Decides on the lookup of the email: the reset token is stored and sent
/// only where an account has the email; the reply is the same either way.
pub fn forgot_password_reply(account_found: bool) -> (r: ForgotPasswordReply)
    ensures
        r.message@ == forgot_password_reply_text(account_found),
        r.send_reset == account_found,
{
    ForgotPasswordReply { message: FORGOT_PASSWORD_MESSAGE.to_owned(), send_reset: account_found }
}

/// The reply to a forgotten-password request does not tell whether an
/// account has the email.
pub proof fn forgot_password_reply_hides_accounts()
    ensures
        forgot_password_reply_text(true) == forgot_password_reply_text(false),
{
}

// ----------------------------------------------------------------------
// Password reset
// ----------------------------------------------------------------------

/// The body of a password-reset request.
pub struct ResetPasswordRequest {
    pub token: String,
    pub new_password: String,
}

/// The number of characters of a reset token: a UUID in its canonical form.
pub const RESET_TOKEN_CHARS: usize = 36;

/// The rules that a password-reset request breaks, in field order: the
/// token must have the 36 characters of a UUID, the new password must have
/// 8 to 128 characters and mix letters and digits.
pub open spec fn reset_password_failures(token: Seq<char>, new_password: Seq<char>) -> Seq<
    Seq<char>,
> {
    (if token.len() == RESET_TOKEN_CHARS {
        Seq::empty()
    } else {
        seq![field_error("token"@, length_rule_error(None, None, Some(RESET_TOKEN_CHARS), token))]
    }) + password_failures("new_password"@, new_password)
}

impl ResetPasswordRequest {
    /// Checks the request against its field rules.
    pub fn validate(&self) -> (r: Result<(), AppError>)
        ensures
            validation_outcome(reset_password_failures(self.token@, self.new_password@), r),
    {
        let mut report = ValidationReport::new();
        if char_count(self.token.as_str()) != RESET_TOKEN_CHARS {
            let rule = length_rule(None, None, Some(RESET_TOKEN_CHARS), self.token.as_str());
            report.fail("token", rule.as_str());
        }
        report.check_password("new_password", self.new_password.as_str());
        assert(report.failures() =~= reset_password_failures(self.token@, self.new_password@));
        report.finish()
    }

    /// The hash under which the reset token's row is stored.
    pub fn token_hash(&self) -> (h: String)
        ensures
            h@ == token_hash_of(self.token@),
    {
        sha256_hex(self.token.as_str())
    }
}

/// The unused, unexpired reset-token row found by its hash.
pub struct ResetTokenRecord {
    pub reset_id: String,
    pub user_id: String,
}

/// A stored reset-token row, as read by the token's hash.
pub struct ResetTokenRow {
    pub reset_id: String,
    pub user_id: String,
    pub used: bool,
    /// When the token expires, written as the database stores times.
    pub expires_at: String,
}

/// Whether a reset-token row can still be spent at the time `now`: it is
/// unused and its expiry lies after `now`.
pub open spec fn reset_row_usable(used: bool, expires_at: Seq<char>, now: Seq<char>) -> bool {
    !used && text_before(now, expires_at)
}

/// Whether the row at `i` is the first of `rows` that can be spent at `now`.
pub open spec fn first_usable_at(rows: Seq<ResetTokenRow>, now: Seq<char>, i: int) -> bool {
    &&& 0 <= i < rows.len()
    &&& reset_row_usable(rows[i].used, rows[i].expires_at@, now)
    &&& forall|j: int|
        0 <= j < i ==> !reset_row_usable(#[trigger] rows[j].used, rows[j].expires_at@, now)
}

/// Picks, among the rows stored under the presented token's hash, the first
/// one that can still be spent at `now`; `None` where none can.
pub fn first_usable_reset(rows: &Vec<ResetTokenRow>, now: &str) -> (r: Option<ResetTokenRecord>)
    ensures
        match r {
            None => forall|j: int|
                0 <= j < rows@.len() ==> !reset_row_usable(
                    #[trigger] rows@[j].used,
                    rows@[j].expires_at@,
                    now@,
                ),
            Some(rec) => exists|i: int|
                #[trigger] first_usable_at(rows@, now@, i) && rec.reset_id@ == rows@[i].reset_id@
                    && rec.user_id@ == rows@[i].user_id@,
        },
        r is Some <==> exists|j: int|
            0 <= j < rows@.len() && !(#[trigger] rows@[j]).used && text_before(
                now@,
                rows@[j].expires_at@,
            ),
        r matches Some(rec) ==> exists|i: int|
            0 <= i < rows@.len() && !(#[trigger] rows@[i]).used && text_before(
                now@,
                rows@[i].expires_at@,
            ) && rec.reset_id@ == rows@[i].reset_id@ && rec.user_id@ == rows@[i].user_id@,
{
    proof {
        assert forall|j: int| 0 <= j < rows@.len() implies reset_row_usable(
            #[trigger] rows@[j].used,
            rows@[j].expires_at@,
            now@,
        ) == (!rows@[j].used && text_before(now@, rows@[j].expires_at@)) by {
            unused_unexpired_reset_row_is_usable(rows@[j].used, rows@[j].expires_at@, now@);
        }
    }
    let mut i: usize = 0;
    while i < rows.len()
        invariant
            i <= rows@.len(),
            forall|j: int|
                0 <= j < i ==> !reset_row_usable(#[trigger] rows@[j].used, rows@[j].expires_at@, now@),
        decreases rows.len() - i,
    {
        let row = &rows[i];
        if !row.used && is_text_before(now, row.expires_at.as_str()) {
            let rec = ResetTokenRecord { reset_id: row.reset_id.clone(), user_id: row.user_id.clone() };
            assert(first_usable_at(rows@, now@, i as int));
            return Some(rec);
        }
        i = i + 1;
    }
    None
}

/// A reset token is good for one reset: once the reset marks its row used,
/// the row cannot be spent again, at any time.
pub proof fn reset_token_single_use(expires_at: Seq<char>, now: Seq<char>, later: Seq<char>)
    requires
        reset_row_usable(false, expires_at, now),
    ensures
        !reset_row_usable(true, expires_at, later),
{
}

/// The rows stored under a token's hash after the reset marks the row
/// `id` used; the other rows are kept.
pub open spec fn mark_reset_used(rows: Seq<ResetTokenRow>, id: Seq<char>) -> Seq<ResetTokenRow> {
    rows.map_values(
        |row: ResetTokenRow|
            if row.reset_id@ == id {
                ResetTokenRow { used: true, ..row }
            } else {
                row
            },
    )
}

/// Single use over the stored rows: once a reset has marked the row `id`
/// used, no later lookup picks that row again, whenever it comes, and every
/// other row is left as it was.
pub proof fn reset_single_use_in_store(rows: Seq<ResetTokenRow>, id: Seq<char>, later: Seq<char>)
    ensures
        forall|i: int|
            #[trigger] first_usable_at(mark_reset_used(rows, id), later, i) ==> mark_reset_used(
                rows,
                id,
            )[i].reset_id@ != id,
        forall|i: int|
            0 <= i < rows.len() && rows[i].reset_id@ != id ==> #[trigger] mark_reset_used(
                rows,
                id,
            )[i] == rows[i],
{
}

/// A reset row can be spent at `now` exactly when it is unused and its
/// expiry lies after `now`: an unused row that has not expired is never
/// refused, and a used or expired one always is.
pub proof fn unused_unexpired_reset_row_is_usable(used: bool, expires_at: Seq<char>, now: Seq<char>)
    ensures
        reset_row_usable(used, expires_at, now) <==> (!used && text_before(now, expires_at)),
{
}

/// An expired reset token cannot be spent: a row whose expiry does not lie
/// after `now` is refused, used or not.
pub proof fn expired_reset_row_refused(used: bool, expires_at: Seq<char>, now: Seq<char>)
    requires
        !text_before(now, expires_at),
    ensures
        !reset_row_usable(used, expires_at, now),
{
}

/// A change that a successful password reset makes to the store.
pub enum ResetWrite {
    /// Replace the user's password hash with the new one.
    SetPasswordHash { user_id: String },
    /// Mark the reset token used.
    MarkResetTokenUsed { reset_id: String },
    /// Revoke every refresh token of the user.
    RevokeRefreshTokens { user_id: String },
}

/// Decides on the lookup of the reset token: none is a bad request; a found
/// token sets the new password, spends the token and revokes every refresh
/// token of its user, in that order.
pub fn reset_password_plan(found: Option<ResetTokenRecord>) -> (r: Result<Vec<ResetWrite>, AppError>)
    ensures
        found is None ==> (r matches Err(AppError::BadRequest(m)) && m@
            == "Invalid or expired reset token"@),
        found matches Some(rec) ==> (r matches Ok(plan) && plan@ == seq![
            ResetWrite::SetPasswordHash { user_id: rec.user_id },
            ResetWrite::MarkResetTokenUsed { reset_id: rec.reset_id },
            ResetWrite::RevokeRefreshTokens { user_id: rec.user_id },
        ]),
{
    match found {
        None => Err(AppError::BadRequest("Invalid or expired reset token".to_owned())),
        Some(rec) => {
            let mut plan = Vec::new();
            plan.push(ResetWrite::SetPasswordHash { user_id: rec.user_id.clone() });
            plan.push(ResetWrite::MarkResetTokenUsed { reset_id: rec.reset_id });
            plan.push(ResetWrite::RevokeRefreshTokens { user_id: rec.user_id });
            Ok(plan)
        },
    }
}

// ----------------------------------------------------------------------
// Logout
// ----------------------------------------------------------------------

/// The body of a logout request.
pub struct LogoutRequest {
    pub refresh_token: String,
}

impl LogoutRequest {
    /// The hash of the refresh token whose rows logout revokes.
    pub fn token_hash(&self) -> (h: String)
        ensures
            h@ == token_hash_of(self.refresh_token@),
    {
        sha256_hex(self.refresh_token.as_str())
    }
}

/// Logout reaches the row stored for a pair's refresh token: presenting the
/// pair's refresh token at logout gives the hash that the row keeps, and once
/// that row is revoked the token is refused at refresh, at any time.
pub proof fn logout_revokes_presented_token(
    refresh_token: Seq<char>,
    stored_hash: Seq<char>,
    sub: Seq<char>,
    now: Seq<char>,
    row: RefreshRow,
)
    requires
        stored_hash == token_hash_of(refresh_token),
        row.token_hash == stored_hash,
    ensures
        row.token_hash == token_hash_of(refresh_token),
        refresh_verdict(
            sub,
            token_hash_of(refresh_token),
            now,
            Some(RefreshRow { revoked: true, ..row }),
        ) == Some("Refresh token has been revoked"@),
{
}

} // verus!
