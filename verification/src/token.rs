use vstd::prelude::*;
use crate::crypto::parse_user_token_claims;
use crate::crypto::sign_user_token_claims;
use crate::crypto::spec_signature_ok;
use crate::crypto::spec_user_token_claims;
use crate::crypto::token_signature_ok;
use crate::messages;
use crate::users::User;

verus! {

/// The claims layout of the long-lived tokens minted for users: issue and
/// expiry times plus the identity fields, one week of validity from issue.
pub struct UserToken {
    pub iat: i64,
    pub exp: i64,
    pub user_id: i32,
    pub username: String,
    pub email: String,
    pub isadmin: bool,
}

/// A token wrapped for transport in a response body.
pub struct TokenBodyResponse {
    pub token: String,
}

pub const ONE_WEEK_SECONDS: i64 = 604800;

impl UserToken {
    /// Mints a token for the user, valid for one week from `now`. Issuance
    /// is owed: the signing primitive is total for an HMAC secret.
    pub fn generate_token(user: &User, now: i64, secret: &[u8]) -> (r: String)
        requires
            now <= i64::MAX - ONE_WEEK_SECONDS,
        ensures
            spec_user_token_claims(r@) == Some(
                (
                    now,
                    (now + ONE_WEEK_SECONDS) as i64,
                    user.id as i64,
                    user.username@,
                    user.email@,
                    user.isadmin,
                ),
            ),
            spec_signature_ok(r@, secret@),
    {
        sign_user_token_claims(
            now,
            now + ONE_WEEK_SECONDS,
            user.id,
            user.username.as_str(),
            user.email.as_str(),
            user.isadmin,
            secret,
        )
    }

    /// The verifier's decision over a long-form token, under the same order
    /// as the shared credential verifier: readable claims, then expiry,
    /// then the signature.
    pub open spec fn spec_verify_token(token: Seq<char>, secret: Seq<u8>, now: i64) -> Result<
        (i64, i64, i64, Seq<char>, Seq<char>, bool),
        &'static str,
    > {
        match spec_user_token_claims(token) {
            Option::None => Err(messages::INVALID_TOKEN),
            Option::Some((iat, exp, uid, un, em, adm)) => {
                if exp < now {
                    Err(messages::TOKEN_EXPIRED)
                } else if uid < i32::MIN as i64 || uid > i32::MAX as i64 {
                    Err(messages::INVALID_TOKEN)
                } else if !spec_signature_ok(token, secret) {
                    Err(messages::INVALID_TOKEN)
                } else {
                    Ok((iat, exp, uid, un, em, adm))
                }
            },
        }
    }

    /// Validates a long-form token against the secret and clock reading.
    pub fn verify_token(token: &str, secret: &[u8], now: i64) -> (r: Result<
        UserToken,
        &'static str,
    >)
        ensures
            match r {
                Ok(t) => Self::spec_verify_token(token@, secret@, now) == Ok::<
                    _,
                    &'static str,
                >((t.iat, t.exp, t.user_id as i64, t.username@, t.email@, t.isadmin)),
                Err(e) => Self::spec_verify_token(token@, secret@, now) == Err::<
                    (i64, i64, i64, Seq<char>, Seq<char>, bool),
                    _,
                >(e),
            },
    {
        let (iat, exp, uid, username, email, isadmin) = match parse_user_token_claims(token) {
            Some(t) => t,
            None => {
                return Err(messages::INVALID_TOKEN);
            },
        };
        if exp < now {
            return Err(messages::TOKEN_EXPIRED);
        }
        if uid < i32::MIN as i64 || uid > i32::MAX as i64 {
            return Err(messages::INVALID_TOKEN);
        }
        if !token_signature_ok(token, secret) {
            return Err(messages::INVALID_TOKEN);
        }
        Ok(UserToken { iat, exp, user_id: uid as i32, username, email, isadmin })
    }
}

} // verus!
