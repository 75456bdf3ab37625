//! The controllers of the records, and what they share.

pub mod job_types;
pub mod jobs;
pub mod node_types;
pub mod nodes;
pub mod schedule;

use crate::http::helpers::control::Status;
use crate::ident::{uuid_of_text, Uuid};
use crate::codec::{push_member, uuid_json};
use crate::json::{lemma_object_view, members_view, Json, JsonView};
use crate::store::{ErrorKind, StoreError};
use vstd::prelude::*;

verus! {

/// The identifier that an argument of the route gives. A missing argument
/// and one that does not read as an identifier are refused with 400.
pub open spec fn uuid_of_arg(arg: Option<Seq<char>>) -> Result<Uuid, Status> {
    match arg {
        None => Err(Status::BadRequest),
        Some(text) => match uuid_of_text(text) {
            Some(id) => Ok(id),
            None => Err(Status::BadRequest),
        },
    }
}

/// An argument of the route, by its characters.
pub open spec fn arg_view(arg: Option<&str>) -> Option<Seq<char>> {
    match arg {
        Some(text) => Some(text@),
        None => None,
    }
}

/// Reads the identifier that an argument of the route gives.
pub fn get_uuid_from_arg(arg: Option<&str>) -> (r: Result<Uuid, Status>)
    ensures
        r == uuid_of_arg(arg_view(arg)),
{
    match arg {
        None => Err(Status::BadRequest),
        Some(text) => match Uuid::parse_str(text) {
            Some(id) => Ok(id),
            None => Err(Status::BadRequest),
        },
    }
}

/// Answers a failure of the store with 500.
pub fn redis_error_translate<T>(result: Result<T, StoreError>) -> (r: Result<T, Status>)
    ensures
        match result {
            Ok(value) => r == Ok::<T, Status>(value),
            Err(_) => r == Err::<T, Status>(Status::InternalServerError),
        },
{
    match result {
        Err(_) => Err(Status::InternalServerError),
        Ok(value) => Ok(value),
    }
}

/// Answers a record that is not there with 404.
pub fn option_translate<T>(option: Option<T>) -> (r: Result<T, Status>)
    ensures
        match option {
            Some(value) => r == Ok::<T, Status>(value),
            None => r == Err::<T, Status>(Status::NotFound),
        },
{
    match option {
        None => Err(Status::NotFound),
        Some(value) => Ok(value),
    }
}

/// The answer for a record that was looked up: the record, 404 where there
/// is none, 500 where the store failed.
pub fn found_or_status<T>(result: Result<Option<T>, StoreError>) -> (r: Result<T, Status>)
    ensures
        match result {
            Ok(Some(value)) => r == Ok::<T, Status>(value),
            Ok(None) => r == Err::<T, Status>(Status::NotFound),
            Err(_) => r == Err::<T, Status>(Status::InternalServerError),
        },
{
    match redis_error_translate(result) {
        Err(status) => Err(status),
        Ok(option) => option_translate(option),
    }
}

/// The answer for a lookup that the store has made.
pub open spec fn answer<V>(outcome: Result<Option<V>, ErrorKind>) -> Result<V, Status> {
    match outcome {
        Ok(Some(record)) => Ok(record),
        Ok(None) => Err(Status::NotFound),
        Err(_) => Err(Status::InternalServerError),
    }
}

/// The answer for a listing that the store has made.
pub open spec fn answer_all<V>(outcome: Result<Seq<V>, ErrorKind>) -> Result<Seq<V>, Status> {
    match outcome {
        Ok(list) => Ok(list),
        Err(_) => Err(Status::InternalServerError),
    }
}

/// The answer to a request that wrote: `{"status":"ok"}`, with the
/// identifier of what was written where the server chose it.
#[derive(Debug, PartialEq)]
pub struct PostResponse {
    pub status: String,
    pub uuid: Option<Uuid>,
}

impl PostResponse {
    /// The JSON object of the answer.
    pub open spec fn json(self) -> JsonView {
        match self.uuid {
            None => JsonView::Object(seq![("status"@, JsonView::Text(self.status@))]),
            Some(id) => JsonView::Object(
                seq![("status"@, JsonView::Text(self.status@)), ("uuid"@, uuid_json(id))],
            ),
        }
    }

    /// The answer that all went well.
    pub fn ok(uuid: Option<Uuid>) -> (r: PostResponse)
        ensures
            r.status@ == "ok"@,
            r.uuid == uuid,
    {
        PostResponse { status: String::from_str("ok"), uuid }
    }

    /// Writes the answer as a JSON object.
    pub fn to_json(&self) -> (value: Json)
        ensures
            value@ == self.json(),
    {
        let mut members: Vec<(String, Json)> = Vec::new();
        push_member(&mut members, "status", Json::Text(self.status.clone()));
        if let Some(id) = self.uuid {
            push_member(&mut members, "uuid", crate::codec::put_uuid(id));
        }
        proof {
            lemma_object_view(members);
            assert(members_view(members@) =~= self.json()->Object_0);
        }
        Json::Object(members)
    }
}

/// The JSON object with one member.
pub open spec fn wrapped(name: Seq<char>, value: JsonView) -> JsonView {
    JsonView::Object(seq![(name, value)])
}

/// Wraps a value in an object with one member.
pub fn wrap(name: &str, value: Json) -> (r: Json)
    ensures
        r@ == wrapped(name@, value@),
{
    let mut members: Vec<(String, Json)> = Vec::new();
    push_member(&mut members, name, value);
    proof {
        lemma_object_view(members);
        assert(members_view(members@) =~= seq![(name@, value@)]);
    }
    Json::Object(members)
}

} // verus!
