//! `GET /health`.

use vstd::prelude::*;

verus! {

/// What a node that is up answers.
pub open spec fn health_text() -> Seq<char> {
    "ok"@
}

/// Answers that the node is up: the plain text `ok`.
pub fn handle() -> (body: String)
    ensures
        body@ == health_text(),
{
    String::from_str("ok")
}

} // verus!
