//! The announced kind of a body.

use crate::http::helpers::control::Status;
use vstd::prelude::*;

verus! {

/// The check that a body that is posted is announced as JSON.
#[derive(Debug, PartialEq)]
pub struct AssertJson {}

impl AssertJson {
    /// Refuses with 415 a POST request whose content type is missing or is
    /// not JSON, and lets every other request pass.
    pub fn before(&self, is_post: bool, content_type_is_json: Option<bool>) -> (r: Result<
        (),
        Status,
    >)
        ensures
            r is Err <==> is_post && content_type_is_json != Some(true),
            r is Err ==> r == Err::<(), Status>(Status::UnsupportedMediaType),
    {
        let json = match content_type_is_json {
            Some(json) => json,
            None => false,
        };
        if is_post && !json {
            Err(Status::UnsupportedMediaType)
        } else {
            Ok(())
        }
    }
}

} // verus!
