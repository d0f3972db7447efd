use vstd::prelude::*;
use vstd::string::StrSliceExecFns;
use crate::database::envelope_msg;
use crate::database::write_message_response;
use crate::messages;
use crate::response::Data;
use crate::strings::parse_i32;
use crate::strings::spec_parse_i32;
use crate::strings::str_eq;
use crate::strings::str_starts_with;

verus! {

// The HTTP front-end's per-request decisions: resolving a method and path
// to a route, pulling the target id out of the path, and the terminal
// responses that short-circuit the state machine.
#[derive(Clone, Copy, PartialEq, Eq, Structural, Debug)]
pub enum Method {
    Get,
    Post,
    Put,
    Delete,
    Other,
}

#[derive(Clone, Copy, PartialEq, Eq, Structural, Debug)]
pub enum Route {
    GetUsers,
    PostSignup,
    PostLogin,
    ForgotPassword,
    ChangePassword,
    GetUserById,
    ActivateUser,
    GetHardwares,
    PostHardwares,
    GetHardwareById,
    UpdateHardware,
    DeleteHardware,
    GetNodes,
    PostNodes,
    GetNodeById,
    UpdateNode,
    DeleteNode,
    AddFeed,
    NotFound,
}

pub open spec fn spec_is_prefix(s: Seq<char>, p: Seq<char>) -> bool {
    p.len() <= s.len() && s.subrange(0, p.len() as int) == p
}

/// The routing table: exact paths first, then the id-carrying prefixes, in
/// the order the dispatcher tries them. An unmatched method under a known
/// prefix, like everything else, resolves to not-found.
pub open spec fn spec_route(path: Seq<char>, m: Method) -> Route {
    if path == "/users/"@ && m == Method::Get {
        Route::GetUsers
    } else if path == "/users/signup/"@ && m == Method::Post {
        Route::PostSignup
    } else if path == "/users/login/"@ && m == Method::Post {
        Route::PostLogin
    } else if path == "/users/forgot-password/"@ && m == Method::Post {
        Route::ForgotPassword
    } else if path == "/users/change-password/"@ && m == Method::Put {
        Route::ChangePassword
    } else if spec_is_prefix(path, "/users/"@) {
        if m == Method::Get {
            Route::GetUserById
        } else {
            Route::NotFound
        }
    } else if spec_is_prefix(path, "/activate/"@) {
        if m == Method::Get {
            Route::ActivateUser
        } else {
            Route::NotFound
        }
    } else if path == "/hardwares/"@ && m == Method::Get {
        Route::GetHardwares
    } else if path == "/hardwares/"@ && m == Method::Post {
        Route::PostHardwares
    } else if spec_is_prefix(path, "/hardwares/"@) {
        match m {
            Method::Get => Route::GetHardwareById,
            Method::Put => Route::UpdateHardware,
            Method::Delete => Route::DeleteHardware,
            _ => Route::NotFound,
        }
    } else if path == "/nodes/"@ && m == Method::Get {
        Route::GetNodes
    } else if path == "/nodes/"@ && m == Method::Post {
        Route::PostNodes
    } else if spec_is_prefix(path, "/nodes/"@) {
        match m {
            Method::Get => Route::GetNodeById,
            Method::Put => Route::UpdateNode,
            Method::Delete => Route::DeleteNode,
            _ => Route::NotFound,
        }
    } else if path == "/channel/"@ && m == Method::Post {
        Route::AddFeed
    } else {
        Route::NotFound
    }
}

/// Resolves a request line to its route.
pub fn route_of(path: &str, method: Method) -> (r: Route)
    ensures
        r == spec_route(path@, method),
{
    if str_eq(path, "/users/") && method == Method::Get {
        Route::GetUsers
    } else if str_eq(path, "/users/signup/") && method == Method::Post {
        Route::PostSignup
    } else if str_eq(path, "/users/login/") && method == Method::Post {
        Route::PostLogin
    } else if str_eq(path, "/users/forgot-password/") && method == Method::Post {
        Route::ForgotPassword
    } else if str_eq(path, "/users/change-password/") && method == Method::Put {
        Route::ChangePassword
    } else if str_starts_with(path, "/users/") {
        if method == Method::Get {
            Route::GetUserById
        } else {
            Route::NotFound
        }
    } else if str_starts_with(path, "/activate/") {
        if method == Method::Get {
            Route::ActivateUser
        } else {
            Route::NotFound
        }
    } else if str_eq(path, "/hardwares/") && method == Method::Get {
        Route::GetHardwares
    } else if str_eq(path, "/hardwares/") && method == Method::Post {
        Route::PostHardwares
    } else if str_starts_with(path, "/hardwares/") {
        match method {
            Method::Get => Route::GetHardwareById,
            Method::Put => Route::UpdateHardware,
            Method::Delete => Route::DeleteHardware,
            _ => Route::NotFound,
        }
    } else if str_eq(path, "/nodes/") && method == Method::Get {
        Route::GetNodes
    } else if str_eq(path, "/nodes/") && method == Method::Post {
        Route::PostNodes
    } else if str_starts_with(path, "/nodes/") {
        match method {
            Method::Get => Route::GetNodeById,
            Method::Put => Route::UpdateNode,
            Method::Delete => Route::DeleteNode,
            _ => Route::NotFound,
        }
    } else if str_eq(path, "/channel/") && method == Method::Post {
        Route::AddFeed
    } else {
        Route::NotFound
    }
}

/// What `path.strip_prefix(prefix)`, `strip_suffix("/")` and `parse::<i32>`
/// together accept: the id between the prefix and a trailing slash.
pub open spec fn spec_extract_id(path: Seq<char>, prefix: Seq<char>) -> Option<i32> {
    if path.len() > prefix.len() && path.subrange(0, prefix.len() as int) == prefix && path.last()
        == '/' {
        spec_parse_i32(path.subrange(prefix.len() as int, path.len() - 1))
    } else {
        None
    }
}

/// Extracts the numeric id from a path of the form `<prefix><id>/`.
pub fn extract_id_from_path(path: &str, prefix: &str) -> (r: Option<i32>)
    ensures
        r == spec_extract_id(path@, prefix@),
{
    if !str_starts_with(path, prefix) {
        return None;
    }
    let m = path.unicode_len();
    let n = prefix.unicode_len();
    if m <= n {
        return None;
    }
    if path.get_char(m - 1) != '/' {
        return None;
    }
    let middle = path.substring_char(n, m - 1);
    parse_i32(middle)
}

/// What stripping the prefix and the trailing slash leaves: the bearer
/// token carried inside an activation path.
pub open spec fn spec_extract_token(path: Seq<char>, prefix: Seq<char>) -> Option<Seq<char>> {
    if path.len() > prefix.len() && path.subrange(0, prefix.len() as int) == prefix && path.last()
        == '/' {
        Some(path.subrange(prefix.len() as int, path.len() - 1))
    } else {
        None
    }
}

/// Extracts the token from a path of the form `<prefix><token>/`.
pub fn extract_jwt_from_path<'a>(path: &'a str, prefix: &str) -> (r: Option<&'a str>)
    ensures
        match r {
            Some(t) => spec_extract_token(path@, prefix@) == Some(t@),
            None => spec_extract_token(path@, prefix@) is None,
        },
{
    if !str_starts_with(path, prefix) {
        return None;
    }
    let m = path.unicode_len();
    let n = prefix.unicode_len();
    if m <= n {
        return None;
    }
    if path.get_char(m - 1) != '/' {
        return None;
    }
    Some(path.substring_char(n, m - 1))
}

/// The terminal not-found response of the dispatcher.
pub fn handle_not_found(out: &mut Vec<u8>) -> (st: u16)
    ensures
        st == 404,
        final(out)@ == envelope_msg::<()>(messages::NOT_FOUND@, Data::Empty),
{
    write_message_response::<()>(messages::NOT_FOUND, 404, out)
}

/// The terminal response when authentication failed, carrying the
/// verifier's message.
pub fn handle_not_authenticated_with_message(message: &'static str, out: &mut Vec<u8>) -> (st: u16)
    ensures
        st == 401,
        final(out)@ == envelope_msg::<()>(message@, Data::Empty),
{
    write_message_response::<()>(message, 401, out)
}

/// The terminal response when the caller is authenticated but lacks the
/// role: distinct from the not-authenticated outcome.
pub fn handle_not_authorized(out: &mut Vec<u8>) -> (st: u16)
    ensures
        st == 403,
        final(out)@ == envelope_msg::<()>(messages::UNAUTHORIZED@, Data::Empty),
{
    write_message_response::<()>(messages::UNAUTHORIZED, 403, out)
}

/// The terminal response for an unreadable path or body.
pub fn handle_bad_request(out: &mut Vec<u8>) -> (st: u16)
    ensures
        st == 400,
        final(out)@ == envelope_msg::<()>(messages::INVALID_PAYLOAD@, Data::Empty),
{
    write_message_response::<()>(messages::INVALID_PAYLOAD, 400, out)
}

} // verus!
