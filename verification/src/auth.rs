use vstd::prelude::*;
use vstd::string::StrSliceExecFns;
use crate::crypto::parse_token_claims;
use crate::crypto::spec_signature_ok;
use crate::crypto::spec_token_claims;
use crate::crypto::token_signature_ok;
use crate::jwt::Claims;
use crate::messages;
use crate::strings::str_starts_with;

verus! {

// The credential verifier, shared by both transports: a pure function of
// the token, the verifying secret, and the clock reading handed in by the
// caller. It never blocks and has no side effects. Its failures are
// distinct: a missing token, an expired token, and every other structural
// or signature failure each carry their own message, and the role check
// layered on top has a fourth.
/// The verifier's decision. The expiry check runs on the decoded claims
/// before the signature check, so an expired token reads as expired no
/// matter what the signature verdict would be.
pub open spec fn spec_verify_jwt(token: Seq<char>, secret: Seq<u8>, now: i64) -> Result<
    Claims,
    &'static str,
> {
    match spec_token_claims(token) {
        Option::None => Err(messages::INVALID_TOKEN),
        Option::Some((uid, adm, exp)) => {
            if exp < now {
                Err(messages::TOKEN_EXPIRED)
            } else if uid < i32::MIN as i64 || uid > i32::MAX as i64 {
                Err(messages::INVALID_TOKEN)
            } else if !spec_signature_ok(token, secret) {
                Err(messages::INVALID_TOKEN)
            } else {
                Ok(Claims { user_id: uid as i32, isadmin: adm, exp })
            }
        },
    }
}

/// Validates a bearer token against the secret and the given clock reading.
pub fn verify_jwt(token: &str, secret: &[u8], now: i64) -> (r: Result<Claims, &'static str>)
    ensures
        r == spec_verify_jwt(token@, secret@, now),
{
    let (uid, adm, exp) = match parse_token_claims(token) {
        Some(t) => t,
        None => {
            return Err(messages::INVALID_TOKEN);
        },
    };
    if exp < now {
        return Err(messages::TOKEN_EXPIRED);
    }
    if uid < i32::MIN as i64 || uid > i32::MAX as i64 {
        return Err(messages::INVALID_TOKEN);
    }
    if !token_signature_ok(token, secret) {
        return Err(messages::INVALID_TOKEN);
    }
    Ok(Claims { user_id: uid as i32, isadmin: adm, exp })
}

/// The bearer token inside an Authorization header value, if the value
/// starts with `Bearer `.
pub open spec fn spec_get_token(header: Seq<char>) -> Option<Seq<char>> {
    if header.len() >= 7 && header.subrange(0, 7) == "Bearer "@ {
        Some(header.subrange(7, header.len() as int))
    } else {
        None
    }
}

/// Strips the `Bearer ` scheme from an Authorization header value.
pub fn get_token(authorization: &str) -> (r: Option<&str>)
    ensures
        match r {
            Some(t) => spec_get_token(authorization@) == Some(t@),
            None => spec_get_token(authorization@) is None,
        },
{
    proof {
        reveal_strlit("Bearer ");
    }
    if str_starts_with(authorization, "Bearer ") {
        let n = authorization.unicode_len();
        Some(authorization.substring_char(7, n))
    } else {
        None
    }
}

/// Authentication from an optional Authorization header value: a header
/// that carries no bearer token at all is reported as unauthenticated,
/// distinctly from a token that fails verification.
pub open spec fn spec_authenticate(header: Seq<char>, secret: Seq<u8>, now: i64) -> Result<
    Claims,
    &'static str,
> {
    match spec_get_token(header) {
        Option::None => Err(messages::UNAUTHENTICATED),
        Option::Some(t) => spec_verify_jwt(t, secret, now),
    }
}

pub fn authenticate(authorization: Option<&str>, secret: &[u8], now: i64) -> (r: Result<
    Claims,
    &'static str,
>)
    ensures
        match authorization {
            Some(h) => r == spec_authenticate(h@, secret@, now),
            None => r == Err::<Claims, &'static str>(messages::UNAUTHENTICATED),
        },
{
    match authorization {
        Some(h) => match get_token(h) {
            Some(t) => verify_jwt(t, secret, now),
            None => Err(messages::UNAUTHENTICATED),
        },
        None => Err(messages::UNAUTHENTICATED),
    }
}

/// Admin authentication layers on top: an authenticated non-admin identity
/// is refused with the distinct authorization message, never with a token
/// error.
pub open spec fn spec_authenticate_admin(header: Seq<char>, secret: Seq<u8>, now: i64) -> Result<
    Claims,
    &'static str,
> {
    match spec_authenticate(header, secret, now) {
        Ok(claims) => if claims.isadmin {
            Ok(claims)
        } else {
            Err(messages::UNAUTHORIZED)
        },
        Err(e) => Err(e),
    }
}

pub fn authenticate_admin(authorization: Option<&str>, secret: &[u8], now: i64) -> (r: Result<
    Claims,
    &'static str,
>)
    ensures
        match authorization {
            Some(h) => r == spec_authenticate_admin(h@, secret@, now),
            None => r == Err::<Claims, &'static str>(messages::UNAUTHENTICATED),
        },
{
    match authenticate(authorization, secret, now) {
        Ok(claims) => {
            if claims.isadmin {
                Ok(claims)
            } else {
                Err(messages::UNAUTHORIZED)
            }
        },
        Err(e) => Err(e),
    }
}

/// A token whose expiry is in the past is always rejected as expired,
/// independent of the signature verdict.
pub proof fn lemma_expired_token_always_rejected(
    token: Seq<char>,
    secret: Seq<u8>,
    now: i64,
    uid: i64,
    adm: bool,
    exp: i64,
)
    requires
        spec_token_claims(token) == Some((uid, adm, exp)),
        exp < now,
    ensures
        spec_verify_jwt(token, secret, now) == Err::<Claims, &'static str>(messages::TOKEN_EXPIRED),
{
}

} // verus!
