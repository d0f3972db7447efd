use vstd::prelude::*;
use crate::database::envelope_msg;
use crate::database::storage_error_response;
use crate::database::write_message_response;
use crate::database::DbError;
use crate::engine::spec_can_mutate_node;
use crate::engine::can_mutate_node;
use crate::feeds::FeedPayload;
use crate::jwt::Claims;
use crate::messages;
use crate::nodes::Node;
use crate::response::Data;

verus! {

// Feed ingestion over HTTP. Feeds are created only here and over the MQTT
// path; they are never updated or deleted, and their ownership is the
// parent node's.
/// Decides POST /channel/: the target node must exist, and inserting a feed
/// is a mutation of the node, so only admin or the owner may proceed. The
/// statement to run afterwards is chosen by `feed_write_query`.
pub fn add_feed_respond(
    node_rows: Result<Vec<Node>, DbError>,
    identity: &Claims,
    out: &mut Vec<u8>,
) -> (r: Result<(), u16>)
    ensures
        match node_rows {
            Ok(ns) => if ns@.len() == 0 {
                r == Err::<(), u16>(404) && final(out)@ == envelope_msg::<FeedPayload>(
                    messages::NODE_NOT_FOUND@,
                    Data::Empty,
                )
            } else if !spec_can_mutate_node(*identity, ns@[0]) {
                r == Err::<(), u16>(401) && final(out)@ == envelope_msg::<FeedPayload>(
                    messages::UNAUTHORIZED@,
                    Data::Empty,
                )
            } else {
                r == Ok::<(), u16>(()) && final(out)@ == old(out)@
            },
            Err(e) => r == Err::<(), u16>(500) && final(out)@ == envelope_msg::<FeedPayload>(
                e.message@,
                Data::Empty,
            ),
        },
{
    let ns = match node_rows {
        Ok(ns) => ns,
        Err(e) => {
            let st = storage_error_response::<FeedPayload>(&e, out);
            return Err(st);
        },
    };
    if ns.len() == 0 {
        let st = write_message_response::<FeedPayload>(messages::NODE_NOT_FOUND, 404, out);
        return Err(st);
    }
    if !can_mutate_node(identity, &ns[0]) {
        let st = write_message_response::<FeedPayload>(messages::UNAUTHORIZED, 401, out);
        return Err(st);
    }
    Ok(())
}

/// The insert statement the ingestion runs: an admin's insert is predicated
/// on the node's existence alone, anyone else's re-encodes the caller as
/// owner, so a raced ownership change still yields zero rows.
#[derive(Clone, Copy, PartialEq, Eq, Structural, Debug)]
pub enum FeedWrite {
    ById { node_id: i32 },
    ByIdAndUser { node_id: i32, user_id: i32 },
}

pub fn feed_write_query(node_id: i32, identity: &Claims) -> (q: FeedWrite)
    ensures
        q == if identity.isadmin {
            (FeedWrite::ById { node_id })
        } else {
            (FeedWrite::ByIdAndUser { node_id, user_id: identity.user_id })
        },
{
    if identity.isadmin {
        FeedWrite::ById { node_id }
    } else {
        FeedWrite::ByIdAndUser { node_id, user_id: identity.user_id }
    }
}

/// Interprets the owner-scoped feed insert: zero rows means the node
/// vanished or changed hands between the check and the insert.
pub fn add_feed_finish(result: Result<u64, DbError>, out: &mut Vec<u8>) -> (st: u16)
    ensures
        match result {
            Ok(n) => if n == 0 {
                st == 404 && final(out)@ == envelope_msg::<FeedPayload>(
                    messages::NODE_NOT_FOUND@,
                    Data::Empty,
                )
            } else {
                st == 201 && final(out)@ == envelope_msg::<FeedPayload>(
                    messages::CREATED@,
                    Data::Empty,
                )
            },
            Err(e) => st == 500 && final(out)@ == envelope_msg::<FeedPayload>(
                e.message@,
                Data::Empty,
            ),
        },
{
    match result {
        Ok(n) => {
            if n == 0 {
                write_message_response::<FeedPayload>(messages::NODE_NOT_FOUND, 404, out)
            } else {
                write_message_response::<FeedPayload>(messages::CREATED, 201, out)
            }
        },
        Err(e) => storage_error_response::<FeedPayload>(&e, out),
    }
}

} // verus!
