use vstd::prelude::*;

use crate::errors::AppError;
use crate::json::{decimal_text, json_string, push_decimal, push_json_string};

verus! {

/// The claims of a short-lived access token.
#[derive(Debug)]
pub struct AccessClaims {
    pub sub: String,
    pub email: String,
    pub token_type: String,
    pub exp: usize,
    pub iat: usize,
}

/// The claims of a long-lived refresh token; `jti` names its row in the
/// token store.
#[derive(Debug)]
pub struct RefreshClaims {
    pub sub: String,
    pub jti: String,
    pub token_type: String,
    pub exp: usize,
    pub iat: usize,
}

/// The JSON text of access claims, fields in declaration order, written
/// compactly.
pub open spec fn access_claims_json(
    sub: Seq<char>,
    email: Seq<char>,
    token_type: Seq<char>,
    exp: nat,
    iat: nat,
) -> Seq<char> {
    "{\"sub\":"@ + json_string(sub) + ",\"email\":"@ + json_string(email) + ",\"token_type\":"@
        + json_string(token_type) + ",\"exp\":"@ + decimal_text(exp) + ",\"iat\":"@ + decimal_text(
        iat,
    ) + "}"@
}

/// The JSON text of refresh claims, fields in declaration order, written
/// compactly.
pub open spec fn refresh_claims_json(
    sub: Seq<char>,
    jti: Seq<char>,
    token_type: Seq<char>,
    exp: nat,
    iat: nat,
) -> Seq<char> {
    "{\"sub\":"@ + json_string(sub) + ",\"jti\":"@ + json_string(jti) + ",\"token_type\":"@
        + json_string(token_type) + ",\"exp\":"@ + decimal_text(exp) + ",\"iat\":"@ + decimal_text(
        iat,
    ) + "}"@
}

/// A JSON whitespace character.
pub open spec fn is_json_whitespace(c: char) -> bool {
    c == ' ' || c == '\t' || c == '\n' || c == '\r'
}

/// Text that neither starts nor ends with JSON whitespace.
pub open spec fn trimmed_text(s: Seq<char>) -> bool {
    s.len() > 0 && !is_json_whitespace(s[0]) && !is_json_whitespace(s.last())
}

/// The HS256 token that `jsonwebtoken` signs for the claims text `claims_json`
/// under `secret`, with the default header.
pub uninterp spec fn jwt_hs256(claims_json: Seq<char>, secret: Seq<char>) -> Seq<char>;

/// Whether `token` carries a signature that is valid under `secret`: its
/// header names HS256 and its last segment is the base64url HMAC-SHA256,
/// keyed with the secret's bytes, of the text before its last dot.
pub uninterp spec fn hs256_signature_valid(token: Seq<char>, secret: Seq<char>) -> bool;

/// Whether a text is a claims text that this library writes (access or
/// refresh claims), with its times in the range of `u64`.
pub open spec fn is_claims_text(s: Seq<char>) -> bool {
    ||| exists|a: Seq<char>, b: Seq<char>, t: Seq<char>, x: nat, i: nat|
        #![trigger access_claims_json(a, b, t, x, i)]
        s == access_claims_json(a, b, t, x, i) && x <= u64::MAX && i <= u64::MAX
    ||| exists|a: Seq<char>, b: Seq<char>, t: Seq<char>, x: nat, i: nat|
        #![trigger refresh_claims_json(a, b, t, x, i)]
        s == refresh_claims_json(a, b, t, x, i) && x <= u64::MAX && i <= u64::MAX
}

/// The claims text carried by a token: the segment between its last two
/// dots, base64url-decoded, as `serde_json`'s `RawValue` holds it (the JSON
/// text without surrounding whitespace); `None` where that is no JSON text.
pub uninterp spec fn jwt_payload_text(token: Seq<char>) -> Option<Seq<char>>;

/// The string member `key` of the JSON object `json`, as `serde_json` reads
/// it; `None` where the text is no JSON object, the member is absent or it is
/// not a string.
pub uninterp spec fn json_str_member(json: Seq<char>, key: Seq<char>) -> Option<Seq<char>>;

/// The unsigned integer member `key` of the JSON object `json`, as
/// `serde_json` reads it; `None` where the text is no JSON object, the member
/// is absent or it is no integer in the range of `u64`.
pub uninterp spec fn json_uint_member(json: Seq<char>, key: Seq<char>) -> Option<u64>;

#[verifier::external_type_specification]
#[verifier::external_body]
pub struct ExJwtError(jsonwebtoken::errors::Error);

/// Calls `jsonwebtoken::encode` with the default header (HS256), the claims
/// given as JSON text and an HMAC key made from `secret`. Claimed: on success
/// the token is the one named by `jwt_hs256`, its signature is valid under
/// `secret`, and where the text has no whitespace at its ends the token
/// carries exactly that text as its payload; and it succeeds on the claims
/// texts that this library writes (valid JSON: the call fails only where
/// `RawValue::from_string` refuses the text as JSON, the HMAC key and the
/// header's algorithm being of one family and HMAC signing never failing).
#[verifier::external_body]
fn jwt_encode(claims_json: &str, secret: &str) -> (r: Result<String, jsonwebtoken::errors::Error>)
    ensures
        r matches Ok(t) ==> t@ == jwt_hs256(claims_json@, secret@),
        r matches Ok(t) ==> hs256_signature_valid(t@, secret@),
        is_claims_text(claims_json@) ==> r is Ok,
        r matches Ok(t) ==> (trimmed_text(claims_json@) ==> jwt_payload_text(t@) == Some(
            claims_json@,
        )),
{
    let claims = serde_json::value::RawValue::from_string(claims_json.to_string())?;
    jsonwebtoken::encode(
        &jsonwebtoken::Header::default(),
        &claims,
        &jsonwebtoken::EncodingKey::from_secret(secret.as_bytes()),
    )
}

/// Calls `jsonwebtoken::decode` with an HMAC key made from `secret` and the
/// default validation (HS256, signature checked, `exp` required) except that
/// the expiry is not compared with the clock: the library does that itself
/// against a reading it is given. Claimed: what it hands back is the token's
/// own payload text; it succeeds only where the token's signature is valid
/// under `secret`; and it succeeds on every token that `jsonwebtoken::encode`
/// signs under `secret` for a claims text of this library (its default
/// header, a valid HMAC, a JSON payload with a numeric `exp`, a string `sub`
/// and no `aud`, `iss` or `nbf`).
#[verifier::external_body]
fn jwt_decode_payload(token: &str, secret: &str) -> (r: Result<String, jsonwebtoken::errors::Error>)
    ensures
        r matches Ok(p) ==> jwt_payload_text(token@) == Some(p@),
        r is Ok ==> hs256_signature_valid(token@, secret@),
        forall|c: Seq<char>|
            is_claims_text(c) && token@ == #[trigger] jwt_hs256(c, secret@) ==> r is Ok,
{
    let mut validation = jsonwebtoken::Validation::default();
    validation.validate_exp = false;
    jsonwebtoken::decode::<Box<serde_json::value::RawValue>>(
        token,
        &jsonwebtoken::DecodingKey::from_secret(secret.as_bytes()),
        &validation,
    ).map(|data| data.claims.get().to_string())
}

/// The text of a `jsonwebtoken` error (its `Display`). Nothing is claimed
/// of the text.
#[verifier::external_body]
fn jwt_error_text(e: &jsonwebtoken::errors::Error) -> String {
    e.to_string()
}

/// An optional text by its view.
pub open spec fn text_view(r: Option<String>) -> Option<Seq<char>> {
    match r {
        Some(s) => Some(s@),
        None => None,
    }
}

/// Reading the string member `key` of a claims text that this library
/// writes, with its times in the range of `u64`, gives back `r`: the string
/// written there for `sub`, `email` (or `jti`) and `token_type`.
pub open spec fn reads_back_string(json: Seq<char>, key: Seq<char>, r: Option<Seq<char>>) -> bool {
    &&& forall|a: Seq<char>, b: Seq<char>, t: Seq<char>, x: nat, i: nat|
        #![trigger access_claims_json(a, b, t, x, i)]
        json == access_claims_json(a, b, t, x, i) && x <= u64::MAX && i <= u64::MAX ==> {
            &&& key == "sub"@ ==> r == Some(a)
            &&& key == "email"@ ==> r == Some(b)
            &&& key == "token_type"@ ==> r == Some(t)
        }
    &&& forall|a: Seq<char>, b: Seq<char>, t: Seq<char>, x: nat, i: nat|
        #![trigger refresh_claims_json(a, b, t, x, i)]
        json == refresh_claims_json(a, b, t, x, i) && x <= u64::MAX && i <= u64::MAX ==> {
            &&& key == "sub"@ ==> r == Some(a)
            &&& key == "jti"@ ==> r == Some(b)
            &&& key == "token_type"@ ==> r == Some(t)
        }
}

/// Reading the integer member `key` of a claims text that this library
/// writes gives back `r`: the number written there for `exp` and `iat`,
/// where it is in the range of `u64`.
pub open spec fn reads_back_uint(json: Seq<char>, key: Seq<char>, r: Option<u64>) -> bool {
    &&& forall|a: Seq<char>, b: Seq<char>, t: Seq<char>, x: nat, i: nat|
        #![trigger access_claims_json(a, b, t, x, i)]
        json == access_claims_json(a, b, t, x, i) && x <= u64::MAX && i <= u64::MAX ==> {
            &&& key == "exp"@ ==> r == Some(x as u64)
            &&& key == "iat"@ ==> r == Some(i as u64)
        }
    &&& forall|a: Seq<char>, b: Seq<char>, t: Seq<char>, x: nat, i: nat|
        #![trigger refresh_claims_json(a, b, t, x, i)]
        json == refresh_claims_json(a, b, t, x, i) && x <= u64::MAX && i <= u64::MAX ==> {
            &&& key == "exp"@ ==> r == Some(x as u64)
            &&& key == "iat"@ ==> r == Some(i as u64)
        }
}

/// Reads a string member of a JSON object with `serde_json` (parse into a
/// `Value`, `get`, `as_str`). Claimed: the result is the one named by
/// `json_str_member`; and, as for any JSON text, reading a member of the
/// claims text that this library writes gives back the string written there
/// (`reads_back_string`: the text's string literals are unambiguous, quotes
/// inside them being escaped).
#[verifier::external_body]
fn json_string_member(json: &str, key: &str) -> (r: Option<String>)
    ensures
        json_str_member(json@, key@) == text_view(r),
        reads_back_string(json@, key@, text_view(r)),
{
    serde_json::from_str::<serde_json::Value>(json).ok()?.get(key)?.as_str().map(|s| s.to_string())
}

/// Reads an unsigned integer member of a JSON object with `serde_json`
/// (parse into a `Value`, `get`, `as_u64`). Claimed: the result is the one
/// named by `json_uint_member`; and reading a time member of the claims text
/// that this library writes gives back the number written there, where it is
/// in the range of `u64` (`reads_back_uint`).
#[verifier::external_body]
fn json_u64_member(json: &str, key: &str) -> (r: Option<u64>)
    ensures
        r == json_uint_member(json@, key@),
        reads_back_uint(json@, key@, r),
{
    serde_json::from_str::<serde_json::Value>(json).ok()?.get(key)?.as_u64()
}

/// Reads the clock: `chrono::Utc::now().timestamp()`, seconds since the Unix
/// epoch. Nothing is claimed of the value.
#[verifier::external_body]
pub(crate) fn unix_now() -> i64 {
    chrono::Utc::now().timestamp()
}

/// Whether `now + expiry_secs` is a valid expiry time in `usize`.
pub open spec fn expiry_fits(now: usize, expiry_secs: i64) -> bool {
    0 <= expiry_secs && now + expiry_secs <= usize::MAX
}

/// Tests `expiry_fits` in executable code.
fn expiry_fits_exec(now: usize, expiry_secs: i64) -> (b: bool)
    ensures
        b == expiry_fits(now, expiry_secs),
{
    if expiry_secs < 0 {
        false
    } else {
        (expiry_secs as u64 as u128) <= (usize::MAX as u128) - (now as u128)
    }
}

/// The text of a character sequence as a `String`.
fn owned(s: &str) -> (r: String)
    ensures
        r@ == s@,
{
    s.to_owned()
}

/// A `String` holding `a` followed by `b`.
fn concat_text(a: &str, b: &str) -> (r: String)
    ensures
        r@ == a@ + b@,
{
    let mut s = a.to_owned();
    s.append(b);
    s
}

impl AccessClaims {
    /// The claims of an access token for the given user, issued at `now` and
    /// expiring `expiry_secs` seconds later.
    pub fn new(user_id: &str, email: &str, now: usize, expiry_secs: i64) -> (c: AccessClaims)
        requires
            expiry_fits(now, expiry_secs),
        ensures
            c.sub@ == user_id@,
            c.email@ == email@,
            c.token_type@ == "access"@,
            c.exp == now + expiry_secs,
            c.iat == now,
    {
        AccessClaims {
            sub: owned(user_id),
            email: owned(email),
            token_type: owned("access"),
            exp: now + expiry_secs as usize,
            iat: now,
        }
    }

    /// The JSON text of the claims, as the token payload carries it.
    pub open spec fn spec_json(&self) -> Seq<char> {
        access_claims_json(self.sub@, self.email@, self.token_type@, self.exp as nat, self.iat as nat)
    }

    /// Writes the claims as compact JSON, fields in declaration order.
    pub fn to_json(&self) -> (j: String)
        ensures
            j@ == self.spec_json(),
            trimmed_text(j@),
    {
        let mut out = owned("{\"sub\":");
        push_json_string(&mut out, self.sub.as_str());
        out.append(",\"email\":");
        push_json_string(&mut out, self.email.as_str());
        out.append(",\"token_type\":");
        push_json_string(&mut out, self.token_type.as_str());
        out.append(",\"exp\":");
        push_decimal(&mut out, self.exp);
        out.append(",\"iat\":");
        push_decimal(&mut out, self.iat);
        out.append("}");
        proof {
            reveal_strlit("{\"sub\":");
            reveal_strlit("}");
        }
        assert(out@ =~= self.spec_json());
        out
    }

    /// Whether the claims are those that a payload text holds.
    pub open spec fn read_from(&self, payload: Seq<char>) -> bool {
        &&& json_str_member(payload, "sub"@) == Some(self.sub@)
        &&& json_str_member(payload, "email"@) == Some(self.email@)
        &&& json_str_member(payload, "token_type"@) == Some(self.token_type@)
        &&& json_uint_member(payload, "exp"@) == Some(self.exp as u64)
        &&& json_uint_member(payload, "iat"@) == Some(self.iat as u64)
    }
}

/// Whether a payload text holds every field of access claims, with the
/// times in the range of `usize`.
pub open spec fn has_access_fields(payload: Seq<char>) -> bool {
    &&& json_str_member(payload, "sub"@) is Some
    &&& json_str_member(payload, "email"@) is Some
    &&& json_str_member(payload, "token_type"@) is Some
    &&& json_uint_member(payload, "exp"@) matches Some(e) && e <= usize::MAX
    &&& json_uint_member(payload, "iat"@) matches Some(i) && i <= usize::MAX
}

/// Whether a payload text holds every field of refresh claims, with the
/// times in the range of `usize`.
pub open spec fn has_refresh_fields(payload: Seq<char>) -> bool {
    &&& json_str_member(payload, "sub"@) is Some
    &&& json_str_member(payload, "jti"@) is Some
    &&& json_str_member(payload, "token_type"@) is Some
    &&& json_uint_member(payload, "exp"@) matches Some(e) && e <= usize::MAX
    &&& json_uint_member(payload, "iat"@) matches Some(i) && i <= usize::MAX
}

/// A time member of a payload, where it fits in `usize`.
fn usize_member(payload: &str, key: &str) -> (r: Option<usize>)
    ensures
        reads_back_uint(payload@, key@, json_uint_member(payload@, key@)),
        match r {
            Some(v) => json_uint_member(payload@, key@) == Some(v as u64),
            None => !(json_uint_member(payload@, key@) matches Some(e) && e <= usize::MAX),
        },
{
    match json_u64_member(payload, key) {
        Some(v) => {
            if (v as u128) <= (usize::MAX as u128) {
                Some(v as usize)
            } else {
                None
            }
        },
        None => None,
    }
}

/// The error that answers a payload which lacks a claim.
fn missing_claim(kind: &str) -> (e: AppError)
    ensures
        e matches AppError::Unauthorized(m) && m@ == "Invalid "@ + kind@
            + " token: missing or mistyped claim"@,
{
    let mut m = owned("Invalid ");
    m.append(kind);
    m.append(" token: missing or mistyped claim");
    AppError::Unauthorized(m)
}

/// Reads access claims out of a decoded payload text.
pub fn access_claims_from_payload(payload: &str) -> (r: Result<AccessClaims, AppError>)
    ensures
        r is Ok <==> has_access_fields(payload@),
        r matches Ok(c) ==> c.read_from(payload@),
        r matches Err(e) ==> e is Unauthorized,
        forall|a: Seq<char>, b: Seq<char>, t: Seq<char>, x: nat, i: nat|
            #![trigger access_claims_json(a, b, t, x, i)]
            payload@ == access_claims_json(a, b, t, x, i) && x <= usize::MAX && i <= usize::MAX
                ==> (r matches Ok(c) && c.sub@ == a && c.email@ == b && c.token_type@ == t && c.exp
                == x && c.iat == i),
        forall|a: Seq<char>, b: Seq<char>, t: Seq<char>, x: nat, i: nat|
            #![trigger refresh_claims_json(a, b, t, x, i)]
            payload@ == refresh_claims_json(a, b, t, x, i) && x <= usize::MAX && i <= usize::MAX
                ==> (r matches Ok(c) ==> c.token_type@
                == t),
{
    let sub = json_string_member(payload, "sub");
    let email = json_string_member(payload, "email");
    let token_type = json_string_member(payload, "token_type");
    let exp = usize_member(payload, "exp");
    let iat = usize_member(payload, "iat");
    match (sub, email, token_type, exp, iat) {
        (Some(sub), Some(email), Some(token_type), Some(exp), Some(iat)) => {
            Ok(AccessClaims { sub, email, token_type, exp, iat })
        },
        _ => Err(missing_claim("access")),
    }
}

/// Signs access claims into a token with `secret`.
pub fn encode_access_claims(claims: &AccessClaims, secret: &str) -> (r: Result<String, AppError>)
    ensures
        r is Ok,
        r matches Ok(t) ==> t@ == jwt_hs256(claims.spec_json(), secret@),
        r matches Ok(t) ==> jwt_payload_text(t@) == Some(claims.spec_json()),
        r matches Ok(t) ==> hs256_signature_valid(t@, secret@),
        r matches Err(e) ==> e matches AppError::Internal(m) && "Failed to create access token: "@.is_prefix_of(m@),
{
    let json = claims.to_json();
    assert(is_claims_text(json@)) by {
        assert(json@ == claims.spec_json());
    }
    match jwt_encode(json.as_str(), secret) {
        Ok(t) => Ok(t),
        Err(e) => {
            let prefix = "Failed to create access token: ";
            let m = concat_text(prefix, jwt_error_text(&e).as_str());
            assert(prefix@.is_prefix_of(m@)) by {
                assert(m@.subrange(0, prefix@.len() as int) =~= prefix@);
            }
            Err(AppError::Internal(m))
        },
    }
}

/// Whether `token` is the access token that this library signs under
/// `secret` for the user `user_id` with `email`, issued at the time `iat`
/// (seconds since the Unix epoch) with the lifetime `expiry_secs`: its
/// claims are `iat` and `exp = iat + expiry_secs`.
pub open spec fn issued_access_at(
    token: Seq<char>,
    user_id: Seq<char>,
    email: Seq<char>,
    secret: Seq<char>,
    expiry_secs: i64,
    iat: usize,
) -> bool {
    &&& expiry_fits(iat, expiry_secs)
    &&& token == jwt_hs256(
        access_claims_json(user_id, email, "access"@, (iat + expiry_secs) as nat, iat as nat),
        secret,
    )
    &&& jwt_payload_text(token) == Some(
        access_claims_json(user_id, email, "access"@, (iat + expiry_secs) as nat, iat as nat),
    )
    &&& hs256_signature_valid(token, secret)
}

/// Whether `token` is an access token that this library signs under
/// `secret` for the user `user_id` with `email` and the lifetime
/// `expiry_secs`, issued at some time.
pub open spec fn is_issued_access_token(
    token: Seq<char>,
    user_id: Seq<char>,
    email: Seq<char>,
    secret: Seq<char>,
    expiry_secs: i64,
) -> bool {
    exists|iat: usize| #[trigger] issued_access_at(token, user_id, email, secret, expiry_secs, iat)
}

/// The leeway, in seconds, that `jsonwebtoken`'s default validation grants
/// past a token's expiry.
pub const EXPIRY_LEEWAY_SECS: i64 = 60;

/// Whether a token that expires at `exp` is refused as expired at the time
/// `now`: its expiry, with the leeway, lies before `now`.
pub open spec fn token_expired(exp: nat, now: int) -> bool {
    exp + EXPIRY_LEEWAY_SECS < now
}

/// Tests `token_expired` in executable code.
fn is_expired(exp: usize, now: i64) -> (b: bool)
    ensures
        b == token_expired(exp as nat, now as int),
{
    (exp as i128) + (EXPIRY_LEEWAY_SECS as i128) < (now as i128)
}

/// The text with which a token that has expired is refused, as
/// `jsonwebtoken` writes its expiry error.
pub open spec fn expired_token_text(kind: Seq<char>) -> Seq<char> {
    "Invalid "@ + kind + " token: ExpiredSignature"@
}

/// The error that answers an expired token.
fn expired_token(kind: &str) -> (e: AppError)
    ensures
        e matches AppError::Unauthorized(m) && m@ == expired_token_text(kind@),
{
    let mut m = owned("Invalid ");
    m.append(kind);
    m.append(" token: ExpiredSignature");
    AppError::Unauthorized(m)
}

/// The error that answers a token lifetime that does not fit the clock.
fn expiry_out_of_range(kind: &str) -> (e: AppError)
    ensures
        e matches AppError::Internal(m) && m@ == "Failed to create "@ + kind@
            + " token: expiry out of range"@,
{
    let mut m = owned("Failed to create ");
    m.append(kind);
    m.append(" token: expiry out of range");
    AppError::Internal(m)
}

/// Creates a signed access token issued at the time `now` (seconds since
/// the Unix epoch): its claims are `iat = now` and `exp = now + expiry_secs`.
/// A lifetime that the clock cannot hold is refused.
pub fn create_access_token_at(
    user_id: &str,
    email: &str,
    secret: &str,
    expiry_secs: i64,
    now: usize,
) -> (r: Result<String, AppError>)
    ensures
        expiry_fits(now, expiry_secs) ==> (r matches Ok(t) && issued_access_at(
            t@,
            user_id@,
            email@,
            secret@,
            expiry_secs,
            now,
        )),
        !expiry_fits(now, expiry_secs) ==> (r matches Err(AppError::Internal(m)) && m@
            == "Failed to create access token: expiry out of range"@),
{
    if !expiry_fits_exec(now, expiry_secs) {
        let e = expiry_out_of_range("access");
        proof {
            reveal_strlit("Failed to create ");
            reveal_strlit("access");
            reveal_strlit(" token: expiry out of range");
            reveal_strlit("Failed to create access token: expiry out of range");
            assert("Failed to create "@ + "access"@ + " token: expiry out of range"@
                =~= "Failed to create access token: expiry out of range"@);
        }
        return Err(e);
    }
    let claims = AccessClaims::new(user_id, email, now, expiry_secs);
    let r = encode_access_claims(&claims, secret);
    proof {
        assert(claims.spec_json() == access_claims_json(
            user_id@,
            email@,
            "access"@,
            (now + expiry_secs) as nat,
            now as nat,
        ));
    }
    r
}

/// Creates a signed access token that expires `expiry_secs` seconds from
/// now: the clock is read once and the token is the one
/// `create_access_token_at` issues at that reading.
pub fn create_access_token(user_id: &str, email: &str, secret: &str, expiry_secs: i64) -> (r:
    Result<String, AppError>)
    ensures
        r matches Ok(t) ==> is_issued_access_token(t@, user_id@, email@, secret@, expiry_secs),
        r matches Err(e) ==> (e matches AppError::Internal(m) && m@
            == "Failed to create access token: expiry out of range"@),
        expiry_secs < 0 ==> r is Err,
{
    let now = unix_now() as usize;
    create_access_token_at(user_id, email, secret, expiry_secs, now)
}

/// The error that answers a token that failed to decode.
fn invalid_token(kind: &str, e: &jsonwebtoken::errors::Error) -> (r: AppError)
    ensures
        r matches AppError::Unauthorized(m) && ("Invalid "@ + kind@ + " token: "@).is_prefix_of(m@),
{
    let mut m = owned("Invalid ");
    m.append(kind);
    m.append(" token: ");
    proof {
        reveal_strlit("Invalid ");
        reveal_strlit(" token: ");
    }
    let ghost head = m@;
    m.append(jwt_error_text(e).as_str());
    assert(head.is_prefix_of(m@)) by {
        assert(m@.subrange(0, head.len() as int) =~= head);
    }
    AppError::Unauthorized(m)
}

/// The error that answers a token of the wrong type.
fn invalid_token_type() -> (e: AppError)
    ensures
        e matches AppError::Unauthorized(m) && m@ == "Invalid token type"@,
{
    AppError::Unauthorized(owned("Invalid token type"))
}

/// Checks a access token at the time `now` (seconds since the Unix epoch):
/// its signature under `secret`, its claims, its expiry against `now` with
/// `jsonwebtoken`'s leeway, and that it is a access token. A token that this
/// library issued under `secret` is accepted, with the claims it was issued
/// with, exactly until it expires; then it is refused as expired.
pub fn verify_access_token_at(token: &str, secret: &str, now: i64) -> (r: Result<AccessClaims, AppError>)
    ensures
        r is Ok ==> hs256_signature_valid(token@, secret@),
        r matches Ok(c) ==> c.token_type@ == "access"@,
        r matches Ok(c) ==> (exists|p: Seq<char>|
            jwt_payload_text(token@) == Some(p) && #[trigger] c.read_from(p)),
        r matches Err(e) ==> e is Unauthorized,
        forall|u: Seq<char>, e: Seq<char>, x: i64|
            #![trigger is_issued_access_token(token@, u, e, secret@, x)]
            is_issued_access_token(token@, u, e, secret@, x) && r is Ok ==> (r matches Ok(c)
                && c.sub@ == u && c.email@ == e && c.exp == c.iat + x),
        forall|u: Seq<char>, id: Seq<char>, x: i64|
            #![trigger is_issued_refresh_token(token@, u, id, secret@, x)]
            is_issued_refresh_token(token@, u, id, secret@, x) ==> r is Err,
        r matches Ok(c) ==> !token_expired(c.exp as nat, now as int),
        forall|u: Seq<char>, e: Seq<char>, x: i64, iat: usize|
            #[trigger] issued_access_at(token@, u, e, secret@, x, iat) ==> if token_expired(
                (iat + x) as nat,
                now as int,
            ) {
                r matches Err(AppError::Unauthorized(m)) && m@ == expired_token_text("access"@)
            } else {
                r matches Ok(c) && c.sub@ == u && c.email@ == e && c.token_type@ == "access"@
                    && c.iat == iat && c.exp == iat + x
            },
{
    proof {
        reveal_strlit("access");
        reveal_strlit("access");
        reveal_strlit("refresh");
    }
    match jwt_decode_payload(token, secret) {
        Err(e) => Err(invalid_token("access", &e)),
        Ok(payload) => {
            let claims = access_claims_from_payload(payload.as_str())?;
            if is_expired(claims.exp, now) {
                return Err(expired_token("access"));
            }
            check_access_type(claims)
        },
    }
}

/// Checks a access token against the clock: the clock is read once and the
/// answer is the one `verify_access_token_at` gives at that reading. A token
/// that this library issued under `secret` is accepted with the claims it
/// was issued with, or refused as expired; it is refused for no other reason.
pub fn verify_access_token(token: &str, secret: &str) -> (r: Result<AccessClaims, AppError>)
    ensures
        r is Ok ==> hs256_signature_valid(token@, secret@),
        r matches Ok(c) ==> c.token_type@ == "access"@,
        r matches Ok(c) ==> (exists|p: Seq<char>|
            jwt_payload_text(token@) == Some(p) && #[trigger] c.read_from(p)),
        r matches Err(e) ==> e is Unauthorized,
        forall|u: Seq<char>, e: Seq<char>, x: i64|
            #![trigger is_issued_access_token(token@, u, e, secret@, x)]
            is_issued_access_token(token@, u, e, secret@, x) && r is Ok ==> (r matches Ok(c)
                && c.sub@ == u && c.email@ == e && c.exp == c.iat + x),
        forall|u: Seq<char>, id: Seq<char>, x: i64|
            #![trigger is_issued_refresh_token(token@, u, id, secret@, x)]
            is_issued_refresh_token(token@, u, id, secret@, x) ==> r is Err,
        forall|u: Seq<char>, e: Seq<char>, x: i64, iat: usize|
            #[trigger] issued_access_at(token@, u, e, secret@, x, iat) ==> (r matches Ok(c) && c.sub@
                == u && c.email@ == e && c.token_type@ == "access"@ && c.iat == iat && c.exp == iat
                + x) || (r matches Err(AppError::Unauthorized(m)) && m@ == expired_token_text(
                "access"@,
            )),
{
    let now = unix_now();
    verify_access_token_at(token, secret, now)
}

/// What verification answers, apart from expiry, for a payload whose signature has
/// been checked: the access claims it holds, if it holds them all and they
/// are of an access token.
pub fn access_claims_of_payload(payload: &str) -> (r: Result<AccessClaims, AppError>)
    ensures
        r is Ok <==> has_access_fields(payload@) && json_str_member(payload@, "token_type"@) == Some(
            "access"@,
        ),
        r matches Ok(c) ==> c.read_from(payload@),
        r matches Err(e) ==> e is Unauthorized,
        has_access_fields(payload@) && json_str_member(payload@, "token_type"@) != Some("access"@)
            ==> (r matches Err(AppError::Unauthorized(m)) && m@ == "Invalid token type"@),
        forall|a: Seq<char>, b: Seq<char>, x: nat, i: nat|
            #![trigger access_claims_json(a, b, "access"@, x, i)]
            payload@ == access_claims_json(a, b, "access"@, x, i) && x <= usize::MAX && i
                <= usize::MAX ==> (r matches Ok(c) && c.sub@ == a && c.email@ == b && c.exp == x
                && c.iat == i),
        forall|a: Seq<char>, b: Seq<char>, x: nat, i: nat|
            #![trigger refresh_claims_json(a, b, "refresh"@, x, i)]
            payload@ == refresh_claims_json(a, b, "refresh"@, x, i) && x <= usize::MAX && i
                <= usize::MAX ==> r is Err,
{
    proof {
        reveal_strlit("access");
        reveal_strlit("refresh");
    }
    let claims = access_claims_from_payload(payload)?;
    check_access_type(claims)
}

/// Accepts decoded claims only where they are those of an access token.
pub fn check_access_type(claims: AccessClaims) -> (r: Result<AccessClaims, AppError>)
    ensures
        claims.token_type@ == "access"@ ==> r == Ok::<AccessClaims, AppError>(claims),
        claims.token_type@ != "access"@ ==> (r matches Err(AppError::Unauthorized(m)) && m@
            == "Invalid token type"@),
{
    if str_equal(claims.token_type.as_str(), "access") {
        Ok(claims)
    } else {
        Err(invalid_token_type())
    }
}

/// Whether two texts are equal, compared character by character.
pub fn str_equal(a: &str, b: &str) -> (r: bool)
    ensures
        r == (a@ == b@),
{
    let n = a.unicode_len();
    if n != b.unicode_len() {
        return false;
    }
    let mut i: usize = 0;
    while i < n
        invariant
            n == a@.len(),
            n == b@.len(),
            i <= n,
            forall|j: int| 0 <= j < i ==> a@[j] == b@[j],
        decreases n - i,
    {
        if a.get_char(i) != b.get_char(i) {
            return false;
        }
        i = i + 1;
    }
    assert(a@ =~= b@);
    true
}

impl RefreshClaims {
    /// The claims of a refresh token for the given user and token id,
    /// issued at `now` and expiring `expiry_secs` seconds later.
    pub fn new(user_id: &str, token_id: &str, now: usize, expiry_secs: i64) -> (c: RefreshClaims)
        requires
            expiry_fits(now, expiry_secs),
        ensures
            c.sub@ == user_id@,
            c.jti@ == token_id@,
            c.token_type@ == "refresh"@,
            c.exp == now + expiry_secs,
            c.iat == now,
    {
        RefreshClaims {
            sub: owned(user_id),
            jti: owned(token_id),
            token_type: owned("refresh"),
            exp: now + expiry_secs as usize,
            iat: now,
        }
    }

    /// The JSON text of the claims, as the token payload carries it.
    pub open spec fn spec_json(&self) -> Seq<char> {
        refresh_claims_json(self.sub@, self.jti@, self.token_type@, self.exp as nat, self.iat as nat)
    }

    /// Writes the claims as compact JSON, fields in declaration order.
    pub fn to_json(&self) -> (j: String)
        ensures
            j@ == self.spec_json(),
            trimmed_text(j@),
    {
        let mut out = owned("{\"sub\":");
        push_json_string(&mut out, self.sub.as_str());
        out.append(",\"jti\":");
        push_json_string(&mut out, self.jti.as_str());
        out.append(",\"token_type\":");
        push_json_string(&mut out, self.token_type.as_str());
        out.append(",\"exp\":");
        push_decimal(&mut out, self.exp);
        out.append(",\"iat\":");
        push_decimal(&mut out, self.iat);
        out.append("}");
        proof {
            reveal_strlit("{\"sub\":");
            reveal_strlit("}");
        }
        assert(out@ =~= self.spec_json());
        out
    }

    /// Whether the claims are those that a payload text holds.
    pub open spec fn read_from(&self, payload: Seq<char>) -> bool {
        &&& json_str_member(payload, "sub"@) == Some(self.sub@)
        &&& json_str_member(payload, "jti"@) == Some(self.jti@)
        &&& json_str_member(payload, "token_type"@) == Some(self.token_type@)
        &&& json_uint_member(payload, "exp"@) == Some(self.exp as u64)
        &&& json_uint_member(payload, "iat"@) == Some(self.iat as u64)
    }
}

/// Reads refresh claims out of a decoded payload text.
pub fn refresh_claims_from_payload(payload: &str) -> (r: Result<RefreshClaims, AppError>)
    ensures
        r is Ok <==> has_refresh_fields(payload@),
        r matches Ok(c) ==> c.read_from(payload@),
        r matches Err(e) ==> e is Unauthorized,
        forall|a: Seq<char>, b: Seq<char>, t: Seq<char>, x: nat, i: nat|
            #![trigger refresh_claims_json(a, b, t, x, i)]
            payload@ == refresh_claims_json(a, b, t, x, i) && x <= usize::MAX && i <= usize::MAX
                ==> (r matches Ok(c) && c.sub@ == a && c.jti@ == b && c.token_type@ == t && c.exp
                == x && c.iat == i),
        forall|a: Seq<char>, b: Seq<char>, t: Seq<char>, x: nat, i: nat|
            #![trigger access_claims_json(a, b, t, x, i)]
            payload@ == access_claims_json(a, b, t, x, i) && x <= usize::MAX && i <= usize::MAX
                ==> (r matches Ok(c) ==> c.token_type@
                == t),
{
    let sub = json_string_member(payload, "sub");
    let jti = json_string_member(payload, "jti");
    let token_type = json_string_member(payload, "token_type");
    let exp = usize_member(payload, "exp");
    let iat = usize_member(payload, "iat");
    match (sub, jti, token_type, exp, iat) {
        (Some(sub), Some(jti), Some(token_type), Some(exp), Some(iat)) => {
            Ok(RefreshClaims { sub, jti, token_type, exp, iat })
        },
        _ => Err(missing_claim("refresh")),
    }
}

/// Signs refresh claims into a token with `secret`.
pub fn encode_refresh_claims(claims: &RefreshClaims, secret: &str) -> (r: Result<String, AppError>)
    ensures
        r is Ok,
        r matches Ok(t) ==> t@ == jwt_hs256(claims.spec_json(), secret@),
        r matches Ok(t) ==> jwt_payload_text(t@) == Some(claims.spec_json()),
        r matches Ok(t) ==> hs256_signature_valid(t@, secret@),
        r matches Err(e) ==> e matches AppError::Internal(m)
            && "Failed to create refresh token: "@.is_prefix_of(m@),
{
    let json = claims.to_json();
    assert(is_claims_text(json@)) by {
        assert(json@ == claims.spec_json());
    }
    match jwt_encode(json.as_str(), secret) {
        Ok(t) => Ok(t),
        Err(e) => {
            let prefix = "Failed to create refresh token: ";
            let m = concat_text(prefix, jwt_error_text(&e).as_str());
            assert(prefix@.is_prefix_of(m@)) by {
                assert(m@.subrange(0, prefix@.len() as int) =~= prefix@);
            }
            Err(AppError::Internal(m))
        },
    }
}

/// Whether `token` is the refresh token that this library signs under
/// `secret` for the user `user_id` and the store row `token_id`, issued at
/// the time `iat` with the lifetime `expiry_secs`: its claims are `iat` and
/// `exp = iat + expiry_secs`.
pub open spec fn issued_refresh_at(
    token: Seq<char>,
    user_id: Seq<char>,
    token_id: Seq<char>,
    secret: Seq<char>,
    expiry_secs: i64,
    iat: usize,
) -> bool {
    &&& expiry_fits(iat, expiry_secs)
    &&& token == jwt_hs256(
        refresh_claims_json(user_id, token_id, "refresh"@, (iat + expiry_secs) as nat, iat as nat),
        secret,
    )
    &&& jwt_payload_text(token) == Some(
        refresh_claims_json(user_id, token_id, "refresh"@, (iat + expiry_secs) as nat, iat as nat),
    )
    &&& hs256_signature_valid(token, secret)
}

/// Whether `token` is a refresh token that this library signs under
/// `secret` for the user `user_id` and the store row `token_id`, with the
/// lifetime `expiry_secs`, issued at some time.
pub open spec fn is_issued_refresh_token(
    token: Seq<char>,
    user_id: Seq<char>,
    token_id: Seq<char>,
    secret: Seq<char>,
    expiry_secs: i64,
) -> bool {
    exists|iat: usize| #[trigger] issued_refresh_at(token, user_id, token_id, secret, expiry_secs, iat)
}

/// Creates a signed refresh token issued at the time `now` (seconds since
/// the Unix epoch): its claims are `iat = now` and `exp = now + expiry_secs`.
/// A lifetime that the clock cannot hold is refused.
pub fn create_refresh_token_at(
    user_id: &str,
    token_id: &str,
    secret: &str,
    expiry_secs: i64,
    now: usize,
) -> (r: Result<String, AppError>)
    ensures
        expiry_fits(now, expiry_secs) ==> (r matches Ok(t) && issued_refresh_at(
            t@,
            user_id@,
            token_id@,
            secret@,
            expiry_secs,
            now,
        )),
        !expiry_fits(now, expiry_secs) ==> (r matches Err(AppError::Internal(m)) && m@
            == "Failed to create refresh token: expiry out of range"@),
{
    if !expiry_fits_exec(now, expiry_secs) {
        let e = expiry_out_of_range("refresh");
        proof {
            reveal_strlit("Failed to create ");
            reveal_strlit("refresh");
            reveal_strlit(" token: expiry out of range");
            reveal_strlit("Failed to create refresh token: expiry out of range");
            assert("Failed to create "@ + "refresh"@ + " token: expiry out of range"@
                =~= "Failed to create refresh token: expiry out of range"@);
        }
        return Err(e);
    }
    let claims = RefreshClaims::new(user_id, token_id, now, expiry_secs);
    let r = encode_refresh_claims(&claims, secret);
    proof {
        assert(claims.spec_json() == refresh_claims_json(
            user_id@,
            token_id@,
            "refresh"@,
            (now + expiry_secs) as nat,
            now as nat,
        ));
    }
    r
}

/// Creates a signed refresh token that expires `expiry_secs` seconds from
/// now: the clock is read once and the token is the one
/// `create_refresh_token_at` issues at that reading.
pub fn create_refresh_token(user_id: &str, token_id: &str, secret: &str, expiry_secs: i64) -> (r:
    Result<String, AppError>)
    ensures
        r matches Ok(t) ==> is_issued_refresh_token(t@, user_id@, token_id@, secret@, expiry_secs),
        r matches Err(e) ==> (e matches AppError::Internal(m) && m@
            == "Failed to create refresh token: expiry out of range"@),
        expiry_secs < 0 ==> r is Err,
{
    let now = unix_now() as usize;
    create_refresh_token_at(user_id, token_id, secret, expiry_secs, now)
}

/// Accepts decoded claims only where they are those of a refresh token.
pub fn check_refresh_type(claims: RefreshClaims) -> (r: Result<RefreshClaims, AppError>)
    ensures
        claims.token_type@ == "refresh"@ ==> r == Ok::<RefreshClaims, AppError>(claims),
        claims.token_type@ != "refresh"@ ==> (r matches Err(AppError::Unauthorized(m)) && m@
            == "Invalid token type"@),
{
    if str_equal(claims.token_type.as_str(), "refresh") {
        Ok(claims)
    } else {
        Err(invalid_token_type())
    }
}

/// What verification answers, apart from expiry, for a payload whose signature has
/// been checked: the refresh claims it holds, if it holds them all and they
/// are of a refresh token.
pub fn refresh_claims_of_payload(payload: &str) -> (r: Result<RefreshClaims, AppError>)
    ensures
        r is Ok <==> has_refresh_fields(payload@) && json_str_member(payload@, "token_type"@) == Some(
            "refresh"@,
        ),
        r matches Ok(c) ==> c.read_from(payload@),
        r matches Err(e) ==> e is Unauthorized,
        has_refresh_fields(payload@) && json_str_member(payload@, "token_type"@) != Some("refresh"@)
            ==> (r matches Err(AppError::Unauthorized(m)) && m@ == "Invalid token type"@),
        forall|a: Seq<char>, b: Seq<char>, x: nat, i: nat|
            #![trigger refresh_claims_json(a, b, "refresh"@, x, i)]
            payload@ == refresh_claims_json(a, b, "refresh"@, x, i) && x <= usize::MAX && i
                <= usize::MAX ==> (r matches Ok(c) && c.sub@ == a && c.jti@ == b && c.exp == x
                && c.iat == i),
        forall|a: Seq<char>, b: Seq<char>, x: nat, i: nat|
            #![trigger access_claims_json(a, b, "access"@, x, i)]
            payload@ == access_claims_json(a, b, "access"@, x, i) && x <= usize::MAX && i
                <= usize::MAX ==> r is Err,
{
    proof {
        reveal_strlit("access");
        reveal_strlit("refresh");
    }
    let claims = refresh_claims_from_payload(payload)?;
    check_refresh_type(claims)
}

/// Checks a refresh token at the time `now` (seconds since the Unix epoch):
/// its signature under `secret`, its claims, its expiry against `now` with
/// `jsonwebtoken`'s leeway, and that it is a refresh token. A token that this
/// library issued under `secret` is accepted, with the claims it was issued
/// with, exactly until it expires; then it is refused as expired.
pub fn verify_refresh_token_at(token: &str, secret: &str, now: i64) -> (r: Result<RefreshClaims, AppError>)
    ensures
        r is Ok ==> hs256_signature_valid(token@, secret@),
        r matches Ok(c) ==> c.token_type@ == "refresh"@,
        r matches Ok(c) ==> (exists|p: Seq<char>|
            jwt_payload_text(token@) == Some(p) && #[trigger] c.read_from(p)),
        r matches Err(e) ==> e is Unauthorized,
        forall|u: Seq<char>, id: Seq<char>, x: i64|
            #![trigger is_issued_refresh_token(token@, u, id, secret@, x)]
            is_issued_refresh_token(token@, u, id, secret@, x) && r is Ok ==> (r matches Ok(c)
                && c.sub@ == u && c.jti@ == id && c.exp == c.iat + x),
        forall|u: Seq<char>, e: Seq<char>, x: i64|
            #![trigger is_issued_access_token(token@, u, e, secret@, x)]
            is_issued_access_token(token@, u, e, secret@, x) ==> r is Err,
        r matches Ok(c) ==> !token_expired(c.exp as nat, now as int),
        forall|u: Seq<char>, id: Seq<char>, x: i64, iat: usize|
            #[trigger] issued_refresh_at(token@, u, id, secret@, x, iat) ==> if token_expired(
                (iat + x) as nat,
                now as int,
            ) {
                r matches Err(AppError::Unauthorized(m)) && m@ == expired_token_text("refresh"@)
            } else {
                r matches Ok(c) && c.sub@ == u && c.jti@ == id && c.token_type@ == "refresh"@
                    && c.iat == iat && c.exp == iat + x
            },
{
    proof {
        reveal_strlit("refresh");
        reveal_strlit("access");
        reveal_strlit("refresh");
    }
    match jwt_decode_payload(token, secret) {
        Err(e) => Err(invalid_token("refresh", &e)),
        Ok(payload) => {
            let claims = refresh_claims_from_payload(payload.as_str())?;
            if is_expired(claims.exp, now) {
                return Err(expired_token("refresh"));
            }
            check_refresh_type(claims)
        },
    }
}

/// Checks a refresh token against the clock: the clock is read once and the
/// answer is the one `verify_refresh_token_at` gives at that reading. A token
/// that this library issued under `secret` is accepted with the claims it
/// was issued with, or refused as expired; it is refused for no other reason.
pub fn verify_refresh_token(token: &str, secret: &str) -> (r: Result<RefreshClaims, AppError>)
    ensures
        r is Ok ==> hs256_signature_valid(token@, secret@),
        r matches Ok(c) ==> c.token_type@ == "refresh"@,
        r matches Ok(c) ==> (exists|p: Seq<char>|
            jwt_payload_text(token@) == Some(p) && #[trigger] c.read_from(p)),
        r matches Err(e) ==> e is Unauthorized,
        forall|u: Seq<char>, id: Seq<char>, x: i64|
            #![trigger is_issued_refresh_token(token@, u, id, secret@, x)]
            is_issued_refresh_token(token@, u, id, secret@, x) && r is Ok ==> (r matches Ok(c)
                && c.sub@ == u && c.jti@ == id && c.exp == c.iat + x),
        forall|u: Seq<char>, e: Seq<char>, x: i64|
            #![trigger is_issued_access_token(token@, u, e, secret@, x)]
            is_issued_access_token(token@, u, e, secret@, x) ==> r is Err,
        forall|u: Seq<char>, id: Seq<char>, x: i64, iat: usize|
            #[trigger] issued_refresh_at(token@, u, id, secret@, x, iat) ==> (r matches Ok(c) && c.sub@
                == u && c.jti@ == id && c.token_type@ == "refresh"@ && c.iat == iat && c.exp == iat
                + x) || (r matches Err(AppError::Unauthorized(m)) && m@ == expired_token_text(
                "refresh"@,
            )),
{
    let now = unix_now();
    verify_refresh_token_at(token, secret, now)
}

/// A token issued at `iat` with a lifetime of `expiry_secs` seconds is
/// good exactly up to `iat + expiry_secs` plus the leeway: it is not expired
/// at the moment it is issued (for any lifetime that is not negative) nor at
/// any time up to then, and it is expired at every later time.
pub proof fn issued_token_lifetime(iat: usize, expiry_secs: i64, now: int)
    requires
        expiry_fits(iat, expiry_secs),
    ensures
        !token_expired((iat + expiry_secs) as nat, iat as int),
        token_expired((iat + expiry_secs) as nat, now) <==> now > iat + expiry_secs
            + EXPIRY_LEEWAY_SECS,
        now <= iat + expiry_secs + EXPIRY_LEEWAY_SECS ==> !token_expired(
            (iat + expiry_secs) as nat,
            now,
        ),
{
}

} // verus!
