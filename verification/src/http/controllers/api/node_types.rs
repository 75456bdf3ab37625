//! `/api/node_types`: the node types.

use crate::exec::node_type::NodeType;
use crate::http::controllers::api::{
    answer, answer_all, arg_view, found_or_status, get_uuid_from_arg, redis_error_translate,
    uuid_of_arg, wrap, wrapped,
};
pub use crate::http::controllers::api::PostResponse;
use crate::http::helpers::control::Status;
use crate::ident::{hyphenated_text, Uuid};
use crate::json::json_text;
use crate::json::Json;
use crate::store::record::{list_json, records, views, written_list};
use crate::store::redis::{found, node_types_key, RedisStore};
use crate::store::server::{pairs_of, Server};
use vstd::prelude::*;

verus! {

/// The answer to a request for all node types.
#[derive(Debug, PartialEq)]
pub struct IndexResponse {
    pub node_types: Vec<NodeType>,
}

impl IndexResponse {
    /// Writes the answer as a JSON object.
    pub fn to_json(&self) -> (value: Json)
        ensures
            value@ == wrapped("node_types"@, written_list::<NodeType>(views(self.node_types@))),
    {
        wrap("node_types", list_json::<NodeType>(&self.node_types))
    }
}

/// Lists all node types.
pub fn index<C: Server>(store: &RedisStore, conn: &mut C) -> (r: Result<IndexResponse, Status>)
    ensures
        final(conn).reliable() == old(conn).reliable(),
        r matches Err(status) ==> status == Status::InternalServerError,
        old(conn).reliable() ==> final(conn).state() == old(conn).state() && exists|
            flat: Seq<Seq<char>>,
        |
            old(conn).state().listed(node_types_key(), flat) && match answer_all(
                #[trigger] records::<NodeType>(pairs_of(flat)),
            ) {
                Ok(list) => r matches Ok(response) && views(response.node_types@) == list,
                Err(status) => r == Err::<IndexResponse, Status>(status),
            },
{
    let node_types = redis_error_translate(store.get_node_types(conn))?;
    Ok(IndexResponse { node_types })
}

/// Shows the one of the node types that the route names.
pub fn get<C: Server>(store: &RedisStore, conn: &mut C, uuid: Option<&str>) -> (r: Result<
    NodeType,
    Status,
>)
    ensures
        final(conn).reliable() == old(conn).reliable(),
        uuid_of_arg(arg_view(uuid)) is Err ==> r == Err::<NodeType, Status>(Status::BadRequest)
            && final(conn).state() == old(conn).state(),
        uuid_of_arg(arg_view(uuid)) is Ok
            && old(conn).reliable() ==> final(conn).state() == old(conn).state() && match answer(
            found::<NodeType>(
                old(conn).state(),
                node_types_key(),
                uuid_of_arg(arg_view(uuid))->Ok_0,
            ),
        ) {
            Ok(record) => r matches Ok(shown) && shown@ == record,
            Err(status) => r == Err::<NodeType, Status>(status),
        },
{
    let uuid = get_uuid_from_arg(uuid)?;
    found_or_status(store.get_node_type(conn, uuid))
}

/// Writes the node type of the body under the identifier that the route
/// names. A body with another identifier is refused with 400, and so is a
/// node type that asks for no worker.
pub fn post<C: Server>(store: &RedisStore, conn: &mut C, uuid: Option<&str>, body: &NodeType) -> (r:
    Result<PostResponse, Status>)
    ensures
        final(conn).reliable() == old(conn).reliable(),
        uuid_of_arg(arg_view(uuid)) != Ok::<Uuid, Status>(body.uuid) || !body@.valid() ==> r
            == Err::<PostResponse, Status>(Status::BadRequest)
            && final(conn).state() == old(conn).state(),
        uuid_of_arg(arg_view(uuid)) == Ok::<Uuid, Status>(body.uuid) && body@.valid()
            && old(conn).reliable() ==> r is Ok && r->Ok_0.status@ == "ok"@
            && r->Ok_0.uuid is None && final(conn).state() == old(conn).state().hset(
            node_types_key(),
            hyphenated_text(body.uuid.value),
            json_text(body@.json()),
        ),
        r matches Err(status) ==> status == Status::BadRequest || status
            == Status::InternalServerError,
{
    let uuid = get_uuid_from_arg(uuid)?;
    if body.uuid != uuid || !body.is_valid() {
        return Err(Status::BadRequest);
    }
    redis_error_translate(store.new_node_type(conn, body))?;
    Ok(PostResponse::ok(None))
}

} // verus!
