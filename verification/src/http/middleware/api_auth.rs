//! The key of the interface.

use crate::http::helpers::control::Status;
use vstd::prelude::*;

verus! {

/// The check that a request carries the key of the interface.
#[derive(Debug, PartialEq)]
pub struct ApiAuth {}

impl ApiAuth {
    /// Lets a request pass that carries the key as its bearer token, and
    /// refuses every other with 401.
    pub fn before(&self, token: Option<&str>, api_key: &str) -> (r: Result<(), Status>)
        ensures
            r is Ok <==> (token matches Some(given) && given@ == api_key@),
            r is Err ==> r == Err::<(), Status>(Status::Unauthorized),
    {
        match token {
            None => Err(Status::Unauthorized),
            Some(given) => if String::from_str(given) == String::from_str(api_key) {
                Ok(())
            } else {
                Err(Status::Unauthorized)
            },
        }
    }
}

} // verus!
