use vstd::prelude::*;

verus! {

/// A stored user row. The password field holds the bcrypt hash, never the
/// cleartext; it is write-only through the hash function.
pub struct User {
    pub id: i32,
    pub username: String,
    pub email: String,
    pub password: String,
    pub status: bool,
    pub isadmin: bool,
}

/// The user as it is listed to callers: the password hash is excluded.
pub struct UserDTO {
    pub id: i32,
    pub username: String,
    pub email: String,
    pub status: bool,
    pub isadmin: bool,
}

/// Body of POST /users/signup/.
pub struct RegisterPayload {
    pub username: String,
    pub email: String,
    pub password: String,
}

/// Body of POST /users/login/.
pub struct LoginPayload {
    pub username: String,
    pub password: String,
}

/// Body of POST /users/change-password/.
pub struct ChangePasswordPayload {
    pub username: String,
    pub password: String,
    pub new_password: String,
}

/// Body of POST /users/forgot-password/.
pub struct ForgotPasswordPayload {
    pub username: String,
    pub email: String,
}

} // verus!
