//! The body of a request, as a controller gets it.

use crate::http::helpers::control::Status;
use crate::json::{parsed_json, Json, JsonView};
use vstd::prelude::*;

verus! {

/// What a request carries for its controller: the JSON value of its body,
/// or nothing for a request without a body.
///
/// A body that is not JSON is refused with 400. A request without a body is
/// refused with 400 too, unless its controller takes none (`allow_empty`).
pub open spec fn body_of(text: Option<Seq<char>>, allow_empty: bool) -> Result<
    Option<JsonView>,
    Status,
> {
    match text {
        None => if allow_empty {
            Ok(None)
        } else {
            Err(Status::BadRequest)
        },
        Some(text) => match parsed_json(text) {
            Ok(value) => Ok(Some(value)),
            Err(_) => Err(Status::BadRequest),
        },
    }
}

/// How the body of a request is taken before its controller is called.
#[derive(Clone, Copy, Debug, PartialEq, Eq, Structural)]
pub struct WrappedHandler {
    /// Whether the controller can do without a body.
    pub allow_empty: bool,
}

/// The way of a controller that needs a body.
pub fn json_wrap() -> (wrapper: WrappedHandler)
    ensures
        !wrapper.allow_empty,
{
    WrappedHandler { allow_empty: false }
}

/// The way of a controller that takes no body and only answers.
pub fn serialize_wrap() -> (wrapper: WrappedHandler)
    ensures
        wrapper.allow_empty,
{
    WrappedHandler { allow_empty: true }
}

impl WrappedHandler {
    /// Reads the body of a request.
    pub fn handle(&self, text: Option<&str>) -> (r: Result<Option<Json>, Status>)
        ensures
            match body_of(
                match text {
                    Some(text) => Some(text@),
                    None => None,
                },
                self.allow_empty,
            ) {
                Ok(Some(value)) => r matches Ok(Some(body)) && body@ == value,
                Ok(None) => r matches Ok(None),
                Err(status) => r == Err::<Option<Json>, Status>(status),
            },
    {
        match text {
            None => if self.allow_empty {
                Ok(None)
            } else {
                Err(Status::BadRequest)
            },
            Some(text) => match Json::parse(text) {
                Ok(value) => Ok(Some(value)),
                Err(_) => Err(Status::BadRequest),
            },
        }
    }
}

/// What a controller takes from a body that it needs: the body as the
/// controller wants it, or 400 where the request has none or where it does
/// not read as what the controller wants.
pub fn required<T>(body: Option<T>) -> (r: Result<T, Status>)
    ensures
        match body {
            Some(wanted) => r == Ok::<T, Status>(wanted),
            None => r == Err::<T, Status>(Status::BadRequest),
        },
{
    match body {
        Some(wanted) => Ok(wanted),
        None => Err(Status::BadRequest),
    }
}

} // verus!
