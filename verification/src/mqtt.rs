use vstd::prelude::*;
use crate::auth::spec_verify_jwt;
use crate::auth::verify_jwt;
use crate::feeds::FeedPayload;
use crate::feeds::FeedValue;

verus! {

// The MQTT front-end's decisions, shared by the v3 and v5 state machines:
// the handshake authenticates the username field as a bearer token, and a
// publish to the ingestion topic becomes an insert bound to the session's
// identity.
/// The refusal that ends a handshake or poisons a publish.
#[derive(Debug)]
pub struct ServerError;

/// The state bound to an accepted session: the verified identity from the
/// handshake, authoritative for every later publish. Re-authentication
/// never occurs mid-session.
#[derive(Clone, Copy, PartialEq, Eq, Structural, Debug)]
pub struct MySession {
    pub user_id: i32,
}

/// Decides a CONNECT: the username field carries the bearer token and runs
/// through the same credential verifier as HTTP; a missing or failing token
/// refuses the connection.
pub fn handle_handshake(username: Option<&str>, secret: &[u8], now: i64) -> (r: Result<
    MySession,
    ServerError,
>)
    ensures
        match username {
            Some(u) => match spec_verify_jwt(u@, secret@, now) {
                Ok(c) => r matches Ok(s) && s.user_id == c.user_id,
                Err(_) => r is Err,
            },
            None => r is Err,
        },
{
    let token = match username {
        Some(u) => u,
        None => {
            return Err(ServerError);
        },
    };
    match verify_jwt(token, secret, now) {
        Ok(claims) => Ok(MySession { user_id: claims.user_id }),
        Err(_) => Err(ServerError),
    }
}

/// The insert a publish resolves to.
pub struct FeedInsert {
    pub node_id: i32,
    pub value: Vec<FeedValue>,
}

/// Decides a PUBLISH: only the ingestion topic is handled, and only with a
/// decodable payload — anything else is dropped without ending the session.
/// The insert is bound to the session identity, never to payload content.
pub fn handle_publish(topic: &str, payload: Option<FeedPayload>, session: &MySession) -> (r: Option<
    FeedInsert,
>)
    ensures
        topic@ != "channel"@ ==> r is None,
        match payload {
            Option::Some(p) => topic@ == "channel"@ ==> (r matches Some(ins) && ins.node_id
                == session.user_id && ins.value == p.value),
            Option::None => r is None,
        },
{
    if !crate::strings::str_eq(topic, "channel") {
        return None;
    }
    match payload {
        Some(p) => Some(FeedInsert { node_id: session.user_id, value: p.value }),
        None => None,
    }
}

} // verus!
