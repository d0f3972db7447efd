use vstd::prelude::*;

verus! {

/// The authenticated identity decoded from a bearer token: who the caller is
/// and whether it holds the admin role. Derived per request, never persisted.
#[derive(Clone, Copy, PartialEq, Eq, Structural, Debug)]
pub struct Claims {
    pub user_id: i32,
    pub isadmin: bool,
    pub exp: i64,
}

/// Claims of the one-shot account-activation token sent by the signup flow.
pub struct ActivationClaims {
    pub username: String,
    pub exp: i64,
}

} // verus!
