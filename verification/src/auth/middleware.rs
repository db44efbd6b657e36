use vstd::prelude::*;

use crate::auth::jwt::{hs256_signature_valid, is_issued_access_token, is_issued_refresh_token, json_str_member, jwt_payload_text, verify_access_token};
use crate::errors::AppError;

verus! {

/// The user on whose behalf a request is made, taken from its access token.
#[derive(Debug)]
pub struct AuthUser {
    pub user_id: String,
    pub email: String,
}

/// The token of an `Authorization` header of the bearer scheme: what follows
/// the prefix `Bearer `, or `None` where the header lacks the prefix.
pub open spec fn bearer_token_of(header: Seq<char>) -> Option<Seq<char>> {
    if "Bearer "@.is_prefix_of(header) {
        Some(header.subrange(7, header.len() as int))
    } else {
        None
    }
}

/// Takes the token out of an `Authorization` header of the bearer scheme.
pub fn bearer_token(header: &str) -> (r: Option<&str>)
    ensures
        match r {
            Some(t) => bearer_token_of(header@) == Some(t@),
            None => bearer_token_of(header@) is None,
        },
{
    let prefix = "Bearer ";
    proof {
        reveal_strlit("Bearer ");
    }
    let len = header.unicode_len();
    if len < 7 {
        return None;
    }
    let mut i: usize = 0;
    while i < 7
        invariant
            len == header@.len(),
            7 <= len,
            i <= 7,
            prefix@ == "Bearer "@,
            prefix@.len() == 7,
            forall|j: int| 0 <= j < i ==> header@[j] == prefix@[j],
        decreases 7 - i,
    {
        if header.get_char(i) != prefix.get_char(i) {
            return None;
        }
        i = i + 1;
    }
    assert(prefix@.is_prefix_of(header@)) by {
        assert(header@.subrange(0, 7) =~= prefix@);
    }
    Some(header.substring_char(7, len))
}

/// The error that answers a request without credentials or with malformed
/// ones.
fn unauthorized(message: &str) -> (e: AppError)
    ensures
        e matches AppError::Unauthorized(m) && m@ == message@,
{
    AppError::Unauthorized(message.to_owned())
}

impl AuthUser {
    /// Whether the user is the one that the access token `token` names: the
    /// token's payload holds the user's id as `sub`, the user's email as
    /// `email`, and `access` as `token_type`.
    pub open spec fn carried_by(&self, token: Seq<char>) -> bool {
        exists|p: Seq<char>|
            #![trigger json_str_member(p, "sub"@)]
            {
                &&& jwt_payload_text(token) == Some(p)
                &&& json_str_member(p, "sub"@) == Some(self.user_id@)
                &&& json_str_member(p, "email"@) == Some(self.email@)
                &&& json_str_member(p, "token_type"@) == Some("access"@)
            }
    }

    /// Authenticates a request from the value of its `Authorization` header
    /// (`None` where the header is absent or not visible ASCII): the header
    /// must hold `Bearer ` and an access token that verifies under `secret`.
    pub fn from_authorization(header: Option<&str>, secret: &str) -> (r: Result<AuthUser, AppError>)
        ensures
            header is None ==> (r matches Err(AppError::Unauthorized(m)) && m@
                == "Missing authorization header"@),
            header matches Some(h) && bearer_token_of(h@) is None ==> (r matches Err(
                AppError::Unauthorized(m),
            ) && m@ == "Invalid authorization format"@),
            r matches Err(e) ==> e is Unauthorized,
            r matches Ok(u) ==> (header matches Some(h) && bearer_token_of(h@) matches Some(t)
                && u.carried_by(t) && hs256_signature_valid(t, secret@)),
            forall|t: Seq<char>, user_id: Seq<char>, email: Seq<char>, x: i64|
                #![trigger is_issued_access_token(t, user_id, email, secret@, x)]
                header matches Some(h) && bearer_token_of(h@) == Some(t) && is_issued_access_token(
                    t,
                    user_id,
                    email,
                    secret@,
                    x,
                ) && r is Ok ==> (r matches Ok(u) && u.user_id@ == user_id && u.email@ == email),
            forall|t: Seq<char>, user_id: Seq<char>, token_id: Seq<char>, x: i64|
                #![trigger is_issued_refresh_token(t, user_id, token_id, secret@, x)]
                header matches Some(h) && bearer_token_of(h@) == Some(t) && is_issued_refresh_token(
                    t,
                    user_id,
                    token_id,
                    secret@,
                    x,
                ) ==> r is Err,
    {
        let header = match header {
            Some(h) => h,
            None => return Err(unauthorized("Missing authorization header")),
        };
        let token = match bearer_token(header) {
            Some(t) => t,
            None => return Err(unauthorized("Invalid authorization format")),
        };
        let claims = verify_access_token(token, secret)?;
        proof {
            let p = choose|p: Seq<char>| jwt_payload_text(token@) == Some(p) && claims.read_from(p);
            assert(json_str_member(p, "sub"@) == Some(claims.sub@));
        }
        let user = AuthUser { user_id: claims.sub, email: claims.email };
        assert(user.carried_by(token@));
        Ok(user)
    }
}

} // verus!
