use vstd::prelude::*;

verus! {

// The opaque token and password primitives the gateway consumes. What each
// call returns is named, never restated: the names stand for the outside
// computations, and the verified verifier decides over them.
/// The claims triple `(user_id, isadmin, exp)` carried by a token, read
/// without any validation; `None` when the token is not structurally a JWT
/// whose claims hold those three fields. A function of the token text alone.
pub uninterp spec fn spec_token_claims(token: Seq<char>) -> Option<(i64, bool, i64)>;

/// Whether the token's header and HS256 signature verify against the
/// secret. A function of the token text and the secret alone.
pub uninterp spec fn spec_signature_ok(token: Seq<char>, secret: Seq<u8>) -> bool;

/// Whether `bcrypt::verify` accepts the password for the stored hash. A
/// function of the two texts alone.
pub uninterp spec fn spec_bcrypt_matches(password: Seq<char>, hash: Seq<char>) -> bool;

/// Relies on jsonwebtoken::insecure_decode_claims to read the claims part,
/// and on serde_json::Value::{get, as_i64, as_bool} to move the three claim
/// fields out of it. No validation of any kind runs here.
#[verifier::external_body]
pub fn parse_token_claims(token: &str) -> (r: Option<(i64, bool, i64)>)
    ensures
        r == spec_token_claims(token@),
{
    let v = match jsonwebtoken::dangerous::insecure_decode_claims::<serde_json::Value>(token) {
        Ok(v) => v,
        Err(_) => return None,
    };
    match (v.get("user_id"), v.get("isadmin"), v.get("exp")) {
        (Some(u), Some(a), Some(e)) => match (u.as_i64(), a.as_bool(), e.as_i64()) {
            (Some(u), Some(a), Some(e)) => Some((u, a, e)),
            _ => None,
        },
        _ => None,
    }
}

/// The activation claims pair `(username, exp)` carried by a token, read
/// without any validation. A function of the token text alone.
pub uninterp spec fn spec_activation_claims(token: Seq<char>) -> Option<(Seq<char>, i64)>;

/// Relies on jsonwebtoken::insecure_decode_claims to read the claims part,
/// and on serde_json::Value::{get, as_str, as_i64} to move the activation
/// fields out of it. No validation of any kind runs here.
#[verifier::external_body]
pub fn parse_activation_claims(token: &str) -> (r: Option<(String, i64)>)
    ensures
        match r {
            Some(t) => spec_activation_claims(token@) == Some((t.0@, t.1)),
            None => spec_activation_claims(token@) is None,
        },
{
    let v = match jsonwebtoken::dangerous::insecure_decode_claims::<serde_json::Value>(token) {
        Ok(v) => v,
        Err(_) => return None,
    };
    match (v.get("username"), v.get("exp")) {
        (Some(u), Some(e)) => match (u.as_str(), e.as_i64()) {
            (Some(u), Some(e)) => Some((u.to_string(), e)),
            _ => None,
        },
        _ => None,
    }
}

/// Relies on jsonwebtoken::decode with every claim check disabled: accepts
/// exactly the tokens whose structure parses, whose header algorithm is
/// HS256, and whose signature verifies against the secret.
#[verifier::external_body]
pub fn token_signature_ok(token: &str, secret: &[u8]) -> (r: bool)
    ensures
        r == spec_signature_ok(token@, secret@),
{
    let mut cfg = jsonwebtoken::Validation::new(jsonwebtoken::Algorithm::HS256);
    cfg.validate_exp = false;
    cfg.validate_aud = false;
    cfg.required_spec_claims = std::collections::HashSet::new();
    let key = jsonwebtoken::DecodingKey::from_secret(secret);
    jsonwebtoken::decode::<serde_json::Value>(token, &key, &cfg).is_ok()
}

/// Relies on jsonwebtoken::encode with the default HS256 header. Issuance
/// is total: the HMAC signer accepts a secret of any length and its signing
/// step cannot fail, and a string-keyed claims object always serializes, so
/// a token always comes back. It carries exactly these claims and verifies
/// against the secret, which is the crate's documented encode/decode round
/// trip.
#[verifier::external_body]
pub fn sign_claims(user_id: i32, isadmin: bool, exp: i64, secret: &[u8]) -> (r: String)
    ensures
        spec_token_claims(r@) == Some((user_id as i64, isadmin, exp)),
        spec_signature_ok(r@, secret@),
{
    let mut m = serde_json::Map::new();
    m.insert("user_id".to_string(), serde_json::Value::from(user_id));
    m.insert("isadmin".to_string(), serde_json::Value::from(isadmin));
    m.insert("exp".to_string(), serde_json::Value::from(exp));
    let claims = serde_json::Value::Object(m);
    let key = jsonwebtoken::EncodingKey::from_secret(secret);
    jsonwebtoken::encode(&jsonwebtoken::Header::default(), &claims, &key).unwrap()
}

/// The long-form user claims `(iat, exp, user_id, username, email,
/// isadmin)` carried by a token, read without any validation. A function of
/// the token text alone.
pub uninterp spec fn spec_user_token_claims(token: Seq<char>) -> Option<
    (i64, i64, i64, Seq<char>, Seq<char>, bool),
>;

/// Relies on jsonwebtoken::insecure_decode_claims to read the claims part,
/// and on serde_json::Value::{get, as_i64, as_str, as_bool} to move the six
/// long-form claim fields out of it. No validation of any kind runs here.
#[verifier::external_body]
pub fn parse_user_token_claims(token: &str) -> (r: Option<(i64, i64, i64, String, String, bool)>)
    ensures
        match r {
            Some(t) => spec_user_token_claims(token@) == Some((t.0, t.1, t.2, t.3@, t.4@, t.5)),
            None => spec_user_token_claims(token@) is None,
        },
{
    let v = jsonwebtoken::dangerous::insecure_decode_claims::<serde_json::Value>(token).ok()?;
    let iat = v.get("iat").and_then(|x| x.as_i64())?;
    let exp = v.get("exp").and_then(|x| x.as_i64())?;
    let uid = v.get("user_id").and_then(|x| x.as_i64())?;
    let username = v.get("username").and_then(|x| x.as_str())?.to_string();
    let email = v.get("email").and_then(|x| x.as_str())?.to_string();
    let isadmin = v.get("isadmin").and_then(|x| x.as_bool())?;
    Some((iat, exp, uid, username, email, isadmin))
}

/// Relies on jsonwebtoken::encode with the default HS256 header, total for
/// the same reason as `sign_claims`: the token it issues carries exactly
/// these long-form claims and verifies against the secret, which is the
/// crate's documented encode/decode round trip.
#[verifier::external_body]
pub fn sign_user_token_claims(
    iat: i64,
    exp: i64,
    user_id: i32,
    username: &str,
    email: &str,
    isadmin: bool,
    secret: &[u8],
) -> (r: String)
    ensures
        spec_user_token_claims(r@) == Some((iat, exp, user_id as i64, username@, email@, isadmin)),
        spec_signature_ok(r@, secret@),
{
    let mut m = serde_json::Map::new();
    m.insert("iat".to_string(), serde_json::Value::from(iat));
    m.insert("exp".to_string(), serde_json::Value::from(exp));
    m.insert("user_id".to_string(), serde_json::Value::from(user_id));
    m.insert("username".to_string(), serde_json::Value::from(username));
    m.insert("email".to_string(), serde_json::Value::from(email));
    m.insert("isadmin".to_string(), serde_json::Value::from(isadmin));
    let claims = serde_json::Value::Object(m);
    let key = jsonwebtoken::EncodingKey::from_secret(secret);
    jsonwebtoken::encode(&jsonwebtoken::Header::default(), &claims, &key).unwrap()
}

/// Relies on bcrypt::hash at the default cost: a fresh salted hash that
/// bcrypt::verify accepts for the same password. The salt is random, so
/// nothing else is stated of the text.
#[verifier::external_body]
pub fn bcrypt_hash(password: &str) -> (r: Option<String>)
    ensures
        r is Some ==> spec_bcrypt_matches(password@, r->Some_0@),
{
    bcrypt::hash(password, bcrypt::DEFAULT_COST).ok()
}

/// Relies on bcrypt::verify: whether the password matches the stored hash;
/// a malformed hash matches nothing.
#[verifier::external_body]
pub fn bcrypt_check(password: &str, hash: &str) -> (r: bool)
    ensures
        r == spec_bcrypt_matches(password@, hash@),
{
    bcrypt::verify(password, hash).unwrap_or(false)
}

/// Relies on chrono::Utc::now for the current Unix timestamp. Nothing can
/// be promised of the clock's value.
#[verifier::external_body]
pub fn now_timestamp() -> i64 {
    chrono::Utc::now().timestamp()
}

} // verus!
