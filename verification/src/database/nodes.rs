use vstd::prelude::*;
use crate::codec::serialize_response;
use crate::database::envelope_msg;
use crate::database::storage_error_response;
use crate::database::write_message_response;
use crate::database::DbError;
use crate::engine::spec_validate_node_payload;
use crate::engine::validate_node_payload;
use crate::feeds::Feed;
use crate::hardwares::Hardware;
use crate::jwt::Claims;
use crate::messages;
use crate::nodes::Node;
use crate::nodes::NodePayload;
use crate::nodes::NodeWithFeed;
use crate::response::ApiResponse;
use crate::response::Data;

verus! {

// The node operations. Reads are visibility-scoped and writes are
// ownership-scoped in the statement itself: a non-admin caller's statement
// carries both the target id and the caller's id, so a mismatched owner
// yields zero affected rows rather than a separate authorization round
// trip.
/// The list statement to run: admins see every node, everyone else sees the
/// single filtered query over owned-or-public.
#[derive(Clone, Copy, PartialEq, Eq, Structural, Debug)]
pub enum NodesQuery {
    All,
    VisibleTo { user_id: i32 },
}

pub fn nodes_list_query(identity: &Claims) -> (q: NodesQuery)
    ensures
        q == if identity.isadmin {
            NodesQuery::All
        } else {
            (NodesQuery::VisibleTo { user_id: identity.user_id })
        },
{
    if identity.isadmin {
        NodesQuery::All
    } else {
        NodesQuery::VisibleTo { user_id: identity.user_id }
    }
}

/// The single-node read statement: scoped to owned-or-public unless the
/// caller is admin.
#[derive(Clone, Copy, PartialEq, Eq, Structural, Debug)]
pub enum NodeQuery {
    ById { id: i32 },
    ByIdVisibleTo { id: i32, user_id: i32 },
}

pub fn node_get_query(id: i32, identity: &Claims) -> (q: NodeQuery)
    ensures
        q == if identity.isadmin {
            (NodeQuery::ById { id })
        } else {
            (NodeQuery::ByIdVisibleTo { id, user_id: identity.user_id })
        },
{
    if identity.isadmin {
        NodeQuery::ById { id }
    } else {
        NodeQuery::ByIdVisibleTo { id, user_id: identity.user_id }
    }
}

/// The write statement for update and delete: a non-admin caller's
/// statement requires the row to carry the caller's id as owner.
#[derive(Clone, Copy, PartialEq, Eq, Structural, Debug)]
pub enum NodeWrite {
    ById { id: i32 },
    ByIdAndUser { id: i32, user_id: i32 },
}

pub fn node_write_query(id: i32, identity: &Claims) -> (q: NodeWrite)
    ensures
        q == if identity.isadmin {
            (NodeWrite::ById { id })
        } else {
            (NodeWrite::ByIdAndUser { id, user_id: identity.user_id })
        },
{
    if identity.isadmin {
        NodeWrite::ById { id }
    } else {
        NodeWrite::ByIdAndUser { id, user_id: identity.user_id }
    }
}

/// The feeds among `feeds` that belong to the node, in arrival order.
pub open spec fn spec_feeds_of(feeds: Seq<Feed>, node_id: i32) -> Seq<Feed>
    decreases feeds.len(),
{
    if feeds.len() == 0 {
        Seq::empty()
    } else {
        let rest = spec_feeds_of(feeds.drop_last(), node_id);
        if feeds.last().node_id == node_id {
            rest.push(feeds.last())
        } else {
            rest
        }
    }
}

/// The feeds left over once the node's own are taken out.
pub open spec fn spec_feeds_not_of(feeds: Seq<Feed>, node_id: i32) -> Seq<Feed>
    decreases feeds.len(),
{
    if feeds.len() == 0 {
        Seq::empty()
    } else {
        let rest = spec_feeds_not_of(feeds.drop_last(), node_id);
        if feeds.last().node_id != node_id {
            rest.push(feeds.last())
        } else {
            rest
        }
    }
}

/// Splits the loaded feeds into those of the node and the rest, keeping
/// arrival order on both sides.
pub fn extract_feeds(feeds: Vec<Feed>, node_id: i32) -> (r: (Vec<Feed>, Vec<Feed>))
    ensures
        r.0@ == spec_feeds_of(feeds@, node_id),
        r.1@ == spec_feeds_not_of(feeds@, node_id),
{
    let ghost all: Seq<Feed> = feeds@;
    let mut rest = feeds;
    let mut taken: Vec<Feed> = Vec::new();
    let mut kept: Vec<Feed> = Vec::new();
    while rest.len() > 0
        invariant
            rest@.len() <= all.len(),
            rest@ =~= all.skip(all.len() - rest@.len()),
            taken@ == spec_feeds_of(all.take(all.len() - rest@.len()), node_id),
            kept@ == spec_feeds_not_of(all.take(all.len() - rest@.len()), node_id),
        decreases rest@.len(),
    {
        let ghost i: int = all.len() - rest@.len();
        let f = rest.remove(0);
        proof {
            assert(f == all.skip(i)[0]);
            assert(f == all[i]);
            assert(all.take(i + 1).drop_last() =~= all.take(i));
            assert(all.take(i + 1).last() == all[i]);
            assert(rest@ =~= all.skip(i + 1));
        }
        if f.node_id == node_id {
            taken.push(f);
        } else {
            kept.push(f);
        }
    }
    proof {
        assert(all.take(all.len() as int) =~= all);
    }
    (taken, kept)
}

/// The feeds still unassigned after the first `k` nodes took theirs.
pub open spec fn spec_remaining(nodes: Seq<Node>, feeds: Seq<Feed>, k: int) -> Seq<Feed>
    decreases k,
{
    if k <= 0 {
        feeds
    } else {
        spec_feeds_not_of(spec_remaining(nodes, feeds, k - 1), nodes[k - 1].id)
    }
}

/// Pairs each node with its feeds, in node order: the k-th node takes its
/// feeds from what the nodes before it left unassigned, so with unique node
/// ids every feed reaches exactly the node it names.
pub fn assemble_nodes_with_feeds(nodes: Vec<Node>, feeds: Vec<Feed>) -> (r: Vec<NodeWithFeed>)
    ensures
        r@.len() == nodes@.len(),
        forall|k: int|
            0 <= k < nodes@.len() ==> #[trigger] r@[k].node == nodes@[k] && r@[k].feeds@
                == spec_feeds_of(spec_remaining(nodes@, feeds@, k), nodes@[k].id),
{
    let ghost nodes_all: Seq<Node> = nodes@;
    let ghost feeds_all: Seq<Feed> = feeds@;
    let mut rest_nodes = nodes;
    let mut rest_feeds = feeds;
    let mut r: Vec<NodeWithFeed> = Vec::new();
    while rest_nodes.len() > 0
        invariant
            rest_nodes@.len() <= nodes_all.len(),
            r@.len() == nodes_all.len() - rest_nodes@.len(),
            rest_nodes@ =~= nodes_all.skip(r@.len() as int),
            rest_feeds@ == spec_remaining(nodes_all, feeds_all, r@.len() as int),
            forall|k: int|
                0 <= k < r@.len() ==> #[trigger] r@[k].node == nodes_all[k] && r@[k].feeds@
                    == spec_feeds_of(spec_remaining(nodes_all, feeds_all, k), nodes_all[k].id),
        decreases rest_nodes@.len(),
    {
        let ghost i: int = r@.len() as int;
        let node = rest_nodes.remove(0);
        proof {
            assert(node == nodes_all.skip(i)[0]);
            assert(node == nodes_all[i]);
            assert(rest_nodes@ =~= nodes_all.skip(i + 1));
        }
        let (mine, left) = extract_feeds(rest_feeds, node.id);
        rest_feeds = left;
        r.push(NodeWithFeed { node, feeds: mine });
    }
    r
}

/// The node ids of the loaded rows, for the batched feed lookup.
pub fn node_ids(nodes: &Vec<Node>) -> (r: Vec<i32>)
    ensures
        r@.len() == nodes@.len(),
        forall|k: int| 0 <= k < nodes@.len() ==> r@[k] == #[trigger] nodes@[k].id,
{
    let mut r: Vec<i32> = Vec::new();
    let n = nodes.len();
    let mut i: usize = 0;
    while i < n
        invariant
            n == nodes@.len(),
            0 <= i <= n,
            r@.len() == i,
            forall|k: int| 0 <= k < i ==> r@[k] == #[trigger] nodes@[k].id,
        decreases n - i,
    {
        r.push(nodes[i].id);
        i = i + 1;
    }
    r
}

/// GET /nodes/: every visible node with its feeds, or the storage failure.
pub fn get_all_nodes_response(
    result: Result<Vec<NodeWithFeed>, DbError>,
    out: &mut Vec<u8>,
) -> (st: u16)
    ensures
        match result {
            Ok(items) => st == 200 && final(out)@ == envelope_msg(
                messages::OK@,
                Data::Multiple(items),
            ),
            Err(e) => st == 500 && final(out)@ == envelope_msg::<NodeWithFeed>(
                e.message@,
                Data::Empty,
            ),
        },
{
    match result {
        Ok(items) => serialize_response(
            &(ApiResponse { message: messages::OK, data: Data::Multiple(items) }),
            200,
            out,
        ),
        Err(e) => storage_error_response::<NodeWithFeed>(&e, out),
    }
}

/// First phase of GET /nodes/{id}: an empty scoped read means not-found —
/// whether the node is absent or simply not visible is indistinguishable by
/// design.
pub fn get_node_first(rows: Result<Vec<Node>, DbError>, out: &mut Vec<u8>) -> (r: Result<Node, u16>)
    ensures
        match rows {
            Ok(ns) => if ns@.len() == 0 {
                r == Err::<Node, u16>(404) && final(out)@ == envelope_msg::<NodePayload>(
                    messages::NODE_NOT_FOUND@,
                    Data::Empty,
                )
            } else {
                r == Ok::<Node, u16>(ns@[0]) && final(out)@ == old(out)@
            },
            Err(e) => r == Err::<Node, u16>(500) && final(out)@ == envelope_msg::<NodePayload>(
                e.message@,
                Data::Empty,
            ),
        },
{
    match rows {
        Ok(mut ns) => {
            if ns.len() == 0 {
                let st = write_message_response::<NodePayload>(messages::NODE_NOT_FOUND, 404, out);
                Err(st)
            } else {
                Ok(ns.remove(0))
            }
        },
        Err(e) => {
            let st = storage_error_response::<NodePayload>(&e, out);
            Err(st)
        },
    }
}

/// Second phase of GET /nodes/{id}: the node with its loaded feeds.
pub fn get_node_with_feeds_response(
    node: Node,
    feeds: Result<Vec<Feed>, DbError>,
    out: &mut Vec<u8>,
) -> (st: u16)
    ensures
        match feeds {
            Ok(fs) => st == 200 && final(out)@ == envelope_msg(
                messages::OK@,
                Data::Single((NodeWithFeed { node, feeds: fs })),
            ),
            Err(e) => st == 500 && final(out)@ == envelope_msg::<NodeWithFeed>(
                e.message@,
                Data::Empty,
            ),
        },
{
    match feeds {
        Ok(fs) => serialize_response(
            &(ApiResponse {
                message: messages::OK,
                data: Data::Single((NodeWithFeed { node, feeds: fs })),
            }),
            200,
            out,
        ),
        Err(e) => storage_error_response::<NodeWithFeed>(&e, out),
    }
}

/// Validates a node payload for creation and update against the loaded
/// catalog; a failing check is written out with its own status, and the
/// statement never runs.
pub fn add_node_validate(payload: &NodePayload, hardwares: &Vec<Hardware>, out: &mut Vec<u8>) -> (r:
    Result<(), u16>)
    ensures
        match spec_validate_node_payload(*payload, hardwares@) {
            Ok(()) => r == Ok::<(), u16>(()) && final(out)@ == old(out)@,
            Err(e) => r == Err::<(), u16>(e.spec_status()) && final(out)@ == envelope_msg::<
                NodePayload,
            >(e.spec_message()@, Data::Empty),
        },
{
    match validate_node_payload(payload, hardwares) {
        Ok(()) => Ok(()),
        Err(e) => {
            let st = write_message_response::<NodePayload>(e.message(), e.status(), out);
            Err(st)
        },
    }
}

/// Interprets the node insert: created, or the storage failure.
pub fn add_node_finish(result: Result<u64, DbError>, out: &mut Vec<u8>) -> (st: u16)
    ensures
        match result {
            Ok(_) => st == 201 && final(out)@ == envelope_msg::<NodePayload>(
                messages::CREATED@,
                Data::Empty,
            ),
            Err(e) => st == 500 && final(out)@ == envelope_msg::<NodePayload>(
                e.message@,
                Data::Empty,
            ),
        },
{
    match result {
        Ok(_) => write_message_response::<NodePayload>(messages::CREATED, 201, out),
        Err(e) => storage_error_response::<NodePayload>(&e, out),
    }
}

/// Interprets the ownership-scoped update: zero affected rows reads as
/// not-found, deliberately indistinguishable from "exists but not yours".
/// An admin's update answers with no data; an owner's echoes the payload.
pub fn update_node_finish(
    result: Result<u64, DbError>,
    is_admin: bool,
    payload: NodePayload,
    out: &mut Vec<u8>,
) -> (st: u16)
    ensures
        match result {
            Ok(n) => if n == 0 {
                st == 404 && final(out)@ == envelope_msg::<NodePayload>(
                    messages::NODE_NOT_FOUND@,
                    Data::Empty,
                )
            } else if is_admin {
                st == 200 && final(out)@ == envelope_msg::<NodePayload>(
                    messages::OK@,
                    Data::Empty,
                )
            } else {
                st == 200 && final(out)@ == envelope_msg(messages::OK@, Data::Single(payload))
            },
            Err(e) => st == 500 && final(out)@ == envelope_msg::<NodePayload>(
                e.message@,
                Data::Empty,
            ),
        },
{
    match result {
        Ok(n) => {
            if n == 0 {
                write_message_response::<NodePayload>(messages::NODE_NOT_FOUND, 404, out)
            } else if is_admin {
                write_message_response::<NodePayload>(messages::OK, 200, out)
            } else {
                serialize_response(
                    &(ApiResponse { message: messages::OK, data: Data::Single(payload) }),
                    200,
                    out,
                )
            }
        },
        Err(e) => storage_error_response::<NodePayload>(&e, out),
    }
}

/// Interprets the ownership-scoped delete, under the same zero-rows rule.
pub fn delete_node_finish(result: Result<u64, DbError>, out: &mut Vec<u8>) -> (st: u16)
    ensures
        match result {
            Ok(n) => if n == 0 {
                st == 404 && final(out)@ == envelope_msg::<NodePayload>(
                    messages::NODE_NOT_FOUND@,
                    Data::Empty,
                )
            } else {
                st == 200 && final(out)@ == envelope_msg::<NodePayload>(
                    messages::OK@,
                    Data::Empty,
                )
            },
            Err(e) => st == 500 && final(out)@ == envelope_msg::<NodePayload>(
                e.message@,
                Data::Empty,
            ),
        },
{
    match result {
        Ok(n) => {
            if n == 0 {
                write_message_response::<NodePayload>(messages::NODE_NOT_FOUND, 404, out)
            } else {
                write_message_response::<NodePayload>(messages::OK, 200, out)
            }
        },
        Err(e) => storage_error_response::<NodePayload>(&e, out),
    }
}

/// How many stored rows the ownership-scoped write statement touches: those
/// whose id is the target and whose owner is the caller.
pub open spec fn spec_scoped_write_hits(table: Seq<Node>, id: i32, user_id: i32) -> int
    decreases table.len(),
{
    if table.len() == 0 {
        0
    } else {
        spec_scoped_write_hits(table.drop_last(), id, user_id) + if table.last().id == id
            && table.last().user_id == user_id {
            1int
        } else {
            0int
        }
    }
}

/// The row-affected-count rule: when the caller is not admin and owns no
/// stored row with the target id, the ownership-scoped statement touches
/// zero rows, so `update_node_finish` and `delete_node_finish` answer
/// not-found — never a distinct "forbidden".
pub proof fn lemma_non_owner_write_yields_not_found(table: Seq<Node>, id: i32, identity: Claims)
    requires
        !identity.isadmin,
        forall|k: int|
            0 <= k < table.len() && (#[trigger] table[k]).id == id ==> table[k].user_id
                != identity.user_id,
    ensures
        spec_scoped_write_hits(table, id, identity.user_id) == 0,
    decreases table.len(),
{
    if table.len() > 0 {
        let t = table.drop_last();
        assert(forall|k: int|
            0 <= k < t.len() ==> #[trigger] t[k] == table[k]);
        lemma_non_owner_write_yields_not_found(t, id, identity);
        assert(table.last() == table[table.len() - 1]);
    }
}

} // verus!
