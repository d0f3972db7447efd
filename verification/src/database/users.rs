use vstd::prelude::*;
use crate::codec::serialize_response;
use crate::crypto::bcrypt_check;
use crate::crypto::bcrypt_hash;
use crate::crypto::parse_activation_claims;
use crate::crypto::sign_claims;
use crate::crypto::spec_activation_claims;
use crate::crypto::spec_bcrypt_matches;
use crate::crypto::spec_signature_ok;
use crate::crypto::spec_token_claims;
use crate::crypto::token_signature_ok;
use crate::database::envelope_msg;
use crate::database::storage_error_response;
use crate::database::write_message_response;
use crate::database::DbError;
use crate::messages;
use crate::response::ApiResponse;
use crate::response::Data;
use crate::users::ChangePasswordPayload;
use crate::users::ForgotPasswordPayload;
use crate::users::LoginPayload;
use crate::users::RegisterPayload;
use crate::users::User;
use crate::users::UserDTO;

verus! {

// The user operations: listing and lookup, signup with write-only password
// hashing, login with credential verification and token issue, activation,
// and the two password-change flows.
/// Tokens issued by login are good for one hour.
pub const TOKEN_LIFETIME_SECONDS: i64 = 3600;

/// GET /users/: every user, password hash excluded.
pub fn get_all_users_response(rows: Result<Vec<UserDTO>, DbError>, out: &mut Vec<u8>) -> (st: u16)
    ensures
        match rows {
            Ok(users) => st == 200 && final(out)@ == envelope_msg(
                messages::OK@,
                Data::Multiple(users),
            ),
            Err(e) => st == 500 && final(out)@ == envelope_msg::<UserDTO>(
                e.message@,
                Data::Empty,
            ),
        },
{
    match rows {
        Ok(users) => serialize_response(
            &(ApiResponse { message: messages::OK, data: Data::Multiple(users) }),
            200,
            out,
        ),
        Err(e) => storage_error_response::<UserDTO>(&e, out),
    }
}

/// GET /users/{id}: the row, or not-found.
pub fn get_one_user_response(rows: Result<Vec<UserDTO>, DbError>, out: &mut Vec<u8>) -> (st: u16)
    ensures
        match rows {
            Ok(users) => if users@.len() == 0 {
                st == 404 && final(out)@ == envelope_msg::<UserDTO>(
                    messages::USER_NOT_FOUND@,
                    Data::Empty,
                )
            } else {
                st == 200 && final(out)@ == envelope_msg(messages::OK@, Data::Single(users@[0]))
            },
            Err(e) => st == 500 && final(out)@ == envelope_msg::<UserDTO>(
                e.message@,
                Data::Empty,
            ),
        },
{
    match rows {
        Ok(mut users) => {
            if users.len() == 0 {
                write_message_response::<UserDTO>(messages::USER_NOT_FOUND, 404, out)
            } else {
                let u = users.remove(0);
                serialize_response(
                    &(ApiResponse { message: messages::OK, data: Data::Single(u) }),
                    200,
                    out,
                )
            }
        },
        Err(e) => storage_error_response::<UserDTO>(&e, out),
    }
}

/// The row a signup inserts: username, email, and the bcrypt hash in place
/// of the password.
pub struct UserInsert {
    pub username: String,
    pub email: String,
    pub password_hash: String,
}

/// Decides POST /users/signup/: either the rejection has been written, or
/// the insert to run, carrying a hash that verifies for the submitted
/// password. The cleartext password never leaves this function.
pub fn register_user_begin(payload: Option<RegisterPayload>, out: &mut Vec<u8>) -> (r: Result<
    UserInsert,
    u16,
>)
    ensures
        payload is None ==> r == Err::<UserInsert, u16>(400) && final(out)@ == envelope_msg::<UserDTO>(messages::INVALID_PAYLOAD@, Data::Empty),
        payload matches Some(p) ==> match r {
            Ok(ins) => ins.username == p.username && ins.email == p.email && spec_bcrypt_matches(
                p.password@,
                ins.password_hash@,
            ) && final(out)@ == old(out)@,
            Err(st) => st == 500 && final(out)@ == envelope_msg::<UserDTO>(
                messages::INTERNAL_SERVER_ERROR@,
                Data::Empty,
            ),
        },
{
    let p = match payload {
        Some(p) => p,
        None => {
            let st = write_message_response::<UserDTO>(messages::INVALID_PAYLOAD, 400, out);
            return Err(st);
        },
    };
    let hash = match bcrypt_hash(p.password.as_str()) {
        Some(h) => h,
        None => {
            let st = write_message_response::<UserDTO>(messages::INTERNAL_SERVER_ERROR, 500, out);
            return Err(st);
        },
    };
    Ok(UserInsert { username: p.username, email: p.email, password_hash: hash })
}

/// Interprets the signup insert: a unique-constraint violation reports the
/// username conflict; anything else that failed is a storage error.
pub fn register_user_finish(result: Result<u64, DbError>, out: &mut Vec<u8>) -> (st: u16)
    ensures
        match result {
            Ok(_) => st == 201 && final(out)@ == envelope_msg::<UserDTO>(
                messages::CREATED@,
                Data::Empty,
            ),
            Err(e) => if e.unique_violation {
                st == 409 && final(out)@ == envelope_msg::<UserDTO>(
                    messages::USER_EXISTS@,
                    Data::Empty,
                )
            } else {
                st == 500 && final(out)@ == envelope_msg::<UserDTO>(e.message@, Data::Empty)
            },
        },
{
    match result {
        Ok(_) => write_message_response::<UserDTO>(messages::CREATED, 201, out),
        Err(e) => {
            if e.unique_violation {
                write_message_response::<UserDTO>(messages::USER_EXISTS, 409, out)
            } else {
                storage_error_response::<UserDTO>(&e, out)
            }
        },
    }
}

/// POST /users/login/: an unknown username or wrong password reads as the
/// same failure; an inactive account is refused; otherwise a token carrying
/// the user's id and role, expiring one lifetime from `now`, is issued.
pub fn login_user_respond(
    payload: &LoginPayload,
    rows: Result<Vec<User>, DbError>,
    secret: &[u8],
    now: i64,
    out: &mut Vec<u8>,
) -> (st: u16)
    requires
        now <= i64::MAX - TOKEN_LIFETIME_SECONDS,
    ensures
        match rows {
            Ok(users) => {
                if users@.len() == 0 || !spec_bcrypt_matches(
                    payload.password@,
                    users@[0].password@,
                ) {
                    st == 401 && final(out)@ == envelope_msg::<UserDTO>(
                        messages::LOGIN_FAILED@,
                        Data::Empty,
                    )
                } else if !users@[0].status {
                    st == 401 && final(out)@ == envelope_msg::<UserDTO>(
                        messages::ACCOUNT_NOT_ACTIVATED@,
                        Data::Empty,
                    )
                } else {
                    st == 200 && exists|token: String|
                        final(out)@ == envelope_msg(messages::OK@, Data::Single(token))
                            && #[trigger] spec_token_claims(token@) == Some(
                            (
                                users@[0].id as i64,
                                users@[0].isadmin,
                                (now + TOKEN_LIFETIME_SECONDS) as i64,
                            ),
                        ) && spec_signature_ok(token@, secret@)
                }
            },
            Err(e) => st == 500 && final(out)@ == envelope_msg::<UserDTO>(e.message@, Data::Empty),
        },
{
    let users = match rows {
        Ok(users) => users,
        Err(e) => {
            return storage_error_response::<UserDTO>(&e, out);
        },
    };
    if users.len() == 0 {
        return write_message_response::<UserDTO>(messages::LOGIN_FAILED, 401, out);
    }
    if !bcrypt_check(payload.password.as_str(), users[0].password.as_str()) {
        return write_message_response::<UserDTO>(messages::LOGIN_FAILED, 401, out);
    }
    if !users[0].status {
        return write_message_response::<UserDTO>(messages::ACCOUNT_NOT_ACTIVATED, 401, out);
    }
    let token = sign_claims(users[0].id, users[0].isadmin, now + TOKEN_LIFETIME_SECONDS, secret);
    serialize_response(&(ApiResponse { message: messages::OK, data: Data::Single(token) }), 200, out)
}

/// The password update that the recovery flows run.
pub struct PasswordUpdate {
    pub username: String,
    pub password_hash: String,
}

/// Decides POST /users/forgot-password/: the account must match on username
/// and email; the caller supplies the freshly generated password, which
/// leaves here only as a hash that verifies for it.
pub fn forgot_password_respond(
    payload: &ForgotPasswordPayload,
    rows: Result<Vec<User>, DbError>,
    new_password: &str,
    out: &mut Vec<u8>,
) -> (r: Result<PasswordUpdate, u16>)
    ensures
        match rows {
            Ok(users) => if users@.len() == 0 {
                r == Err::<PasswordUpdate, u16>(404) && final(out)@ == envelope_msg::<UserDTO>(
                    messages::USER_NOT_FOUND@,
                    Data::Empty,
                )
            } else {
                match r {
                    Ok(up) => up.username == payload.username && spec_bcrypt_matches(
                        new_password@,
                        up.password_hash@,
                    ) && final(out)@ == old(out)@,
                    Err(st) => st == 500 && final(out)@ == envelope_msg::<UserDTO>(
                        messages::INTERNAL_SERVER_ERROR@,
                        Data::Empty,
                    ),
                }
            },
            Err(e) => r == Err::<PasswordUpdate, u16>(500) && final(out)@ == envelope_msg::<UserDTO>(
                e.message@,
                Data::Empty,
            ),
        },
{
    let users = match rows {
        Ok(users) => users,
        Err(e) => {
            let st = storage_error_response::<UserDTO>(&e, out);
            return Err(st);
        },
    };
    if users.len() == 0 {
        let st = write_message_response::<UserDTO>(messages::USER_NOT_FOUND, 404, out);
        return Err(st);
    }
    let hash = match bcrypt_hash(new_password) {
        Some(h) => h,
        None => {
            let st = write_message_response::<UserDTO>(messages::INTERNAL_SERVER_ERROR, 500, out);
            return Err(st);
        },
    };
    Ok(PasswordUpdate { username: payload.username.clone(), password_hash: hash })
}

/// Decides POST /users/change-password/: the old password must verify for
/// the stored hash, then the new one is hashed for the update.
pub fn change_password_respond(
    payload: &ChangePasswordPayload,
    rows: Result<Vec<User>, DbError>,
    out: &mut Vec<u8>,
) -> (r: Result<PasswordUpdate, u16>)
    ensures
        match rows {
            Ok(users) => if users@.len() == 0 || !spec_bcrypt_matches(
                payload.password@,
                users@[0].password@,
            ) {
                r == Err::<PasswordUpdate, u16>(401) && final(out)@ == envelope_msg::<UserDTO>(
                    messages::LOGIN_FAILED@,
                    Data::Empty,
                )
            } else {
                match r {
                    Ok(up) => up.username == payload.username && spec_bcrypt_matches(
                        payload.new_password@,
                        up.password_hash@,
                    ) && final(out)@ == old(out)@,
                    Err(st) => st == 500 && final(out)@ == envelope_msg::<UserDTO>(
                        messages::INTERNAL_SERVER_ERROR@,
                        Data::Empty,
                    ),
                }
            },
            Err(e) => r == Err::<PasswordUpdate, u16>(500) && final(out)@ == envelope_msg::<UserDTO>(
                e.message@,
                Data::Empty,
            ),
        },
{
    let users = match rows {
        Ok(users) => users,
        Err(e) => {
            let st = storage_error_response::<UserDTO>(&e, out);
            return Err(st);
        },
    };
    if users.len() == 0 {
        let st = write_message_response::<UserDTO>(messages::LOGIN_FAILED, 401, out);
        return Err(st);
    }
    if !bcrypt_check(payload.password.as_str(), users[0].password.as_str()) {
        let st = write_message_response::<UserDTO>(messages::LOGIN_FAILED, 401, out);
        return Err(st);
    }
    let hash = match bcrypt_hash(payload.new_password.as_str()) {
        Some(h) => h,
        None => {
            let st = write_message_response::<UserDTO>(messages::INTERNAL_SERVER_ERROR, 500, out);
            return Err(st);
        },
    };
    Ok(PasswordUpdate { username: payload.username.clone(), password_hash: hash })
}

/// Interprets the password update both recovery flows run.
pub fn password_update_finish(result: Result<u64, DbError>, out: &mut Vec<u8>) -> (st: u16)
    ensures
        match result {
            Ok(_) => st == 200 && final(out)@ == envelope_msg::<UserDTO>(messages::OK@, Data::Empty),
            Err(e) => st == 500 && final(out)@ == envelope_msg::<UserDTO>(e.message@, Data::Empty),
        },
{
    match result {
        Ok(_) => write_message_response::<UserDTO>(messages::OK, 200, out),
        Err(e) => storage_error_response::<UserDTO>(&e, out),
    }
}

/// Decides GET /activate/{token}/: the one-shot activation token must carry
/// readable claims, be unexpired, and verify against the activation secret;
/// any failure reads as an invalid token. On success the username to
/// activate comes back.
pub fn activate_user_begin(token: &str, secret: &[u8], now: i64, out: &mut Vec<u8>) -> (r: Result<
    String,
    u16,
>)
    ensures
        match spec_activation_claims(token@) {
            Option::None => r == Err::<String, u16>(401) && final(out)@ == envelope_msg::<UserDTO>(
                messages::INVALID_TOKEN@,
                Data::Empty,
            ),
            Option::Some((uname, exp)) => if exp < now || !spec_signature_ok(token@, secret@) {
                r == Err::<String, u16>(401) && final(out)@ == envelope_msg::<UserDTO>(
                    messages::INVALID_TOKEN@,
                    Data::Empty,
                )
            } else {
                r matches Ok(u) && u@ == uname && final(out)@ == old(out)@
            },
        },
{
    let (username, exp) = match parse_activation_claims(token) {
        Some(t) => t,
        None => {
            let st = write_message_response::<UserDTO>(messages::INVALID_TOKEN, 401, out);
            return Err(st);
        },
    };
    if exp < now {
        let st = write_message_response::<UserDTO>(messages::INVALID_TOKEN, 401, out);
        return Err(st);
    }
    if !token_signature_ok(token, secret) {
        let st = write_message_response::<UserDTO>(messages::INVALID_TOKEN, 401, out);
        return Err(st);
    }
    Ok(username)
}

/// Interprets the activation update: zero affected rows means the username
/// from the token no longer exists.
pub fn activate_user_finish(result: Result<u64, DbError>, out: &mut Vec<u8>) -> (st: u16)
    ensures
        match result {
            Ok(n) => if n == 0 {
                st == 404 && final(out)@ == envelope_msg::<UserDTO>(
                    messages::USER_NOT_FOUND@,
                    Data::Empty,
                )
            } else {
                st == 200 && final(out)@ == envelope_msg::<UserDTO>(messages::OK@, Data::Empty)
            },
            Err(e) => st == 500 && final(out)@ == envelope_msg::<UserDTO>(e.message@, Data::Empty),
        },
{
    match result {
        Ok(n) => {
            if n == 0 {
                write_message_response::<UserDTO>(messages::USER_NOT_FOUND, 404, out)
            } else {
                write_message_response::<UserDTO>(messages::OK, 200, out)
            }
        },
        Err(e) => storage_error_response::<UserDTO>(&e, out),
    }
}

} // verus!
