//! `/api/nodes`: the nodes that are alive.

use crate::exec::node::Node;
use crate::http::controllers::api::{
    answer, answer_all, arg_view, found_or_status, get_uuid_from_arg, redis_error_translate,
    uuid_of_arg, wrap, wrapped,
};
use crate::http::helpers::control::Status;
use crate::json::Json;
use crate::store::record::{list_json, records, views, written_list};
use crate::store::redis::{found_unchecked, node_alive, nodes_alive, nodes_key, RedisStore};
use crate::store::server::{pairs_of, Server};
use vstd::prelude::*;

verus! {

/// The answer to a request for all nodes.
#[derive(Debug, PartialEq)]
pub struct IndexResponse {
    pub nodes: Vec<Node>,
}

impl IndexResponse {
    /// Writes the answer as a JSON object.
    pub fn to_json(&self) -> (value: Json)
        ensures
            value@ == wrapped("nodes"@, written_list::<Node>(views(self.nodes@))),
    {
        wrap("nodes", list_json::<Node>(&self.nodes))
    }
}

/// Lists the nodes that count as alive at the moment of the request.
pub fn index<C: Server>(store: &RedisStore, conn: &mut C) -> (r: Result<IndexResponse, Status>)
    ensures
        final(conn).reliable() == old(conn).reliable(),
        r matches Err(status) ==> status == Status::InternalServerError,
        old(conn).reliable() ==> final(conn).state() == old(conn).state() && exists|
            flat: Seq<Seq<char>>,
            now: u64,
        |
            old(conn).state().listed(nodes_key(), flat) && match answer_all(
                #[trigger] nodes_alive(records::<Node>(pairs_of(flat)), now),
            ) {
                Ok(list) => r matches Ok(response) && views(response.nodes@) == list,
                Err(status) => r == Err::<IndexResponse, Status>(status),
            },
{
    let nodes = redis_error_translate(store.get_nodes(conn))?;
    Ok(IndexResponse { nodes })
}

/// Shows the node that the route names, if it counts as alive at the
/// moment of the request.
pub fn get<C: Server>(store: &RedisStore, conn: &mut C, uuid: Option<&str>) -> (r: Result<
    Node,
    Status,
>)
    ensures
        final(conn).reliable() == old(conn).reliable(),
        uuid_of_arg(arg_view(uuid)) is Err ==> r == Err::<Node, Status>(Status::BadRequest)
            && final(conn).state() == old(conn).state(),
        uuid_of_arg(arg_view(uuid)) is Ok
            && old(conn).reliable() ==> final(conn).state() == old(conn).state() && exists|now: u64|
            match answer(
                #[trigger] node_alive(
                    found_unchecked::<Node>(
                        old(conn).state(),
                        nodes_key(),
                        uuid_of_arg(arg_view(uuid))->Ok_0,
                    ),
                    now,
                ),
            ) {
                Ok(record) => r matches Ok(shown) && shown@ == record,
                Err(status) => r == Err::<Node, Status>(status),
            },
{
    let uuid = get_uuid_from_arg(uuid)?;
    found_or_status(store.get_other_node(conn, uuid))
}

} // verus!
