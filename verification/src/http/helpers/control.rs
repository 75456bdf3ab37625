//! The statuses with which a request is refused.

use vstd::prelude::*;

verus! {

/// Why a request is refused.
#[derive(Clone, Copy, Debug, PartialEq, Eq, Structural)]
pub enum Status {
    /// 400: an identifier or the body of the request cannot be read.
    BadRequest,
    /// 401: the request does not carry the key of the interface.
    Unauthorized,
    /// 404: there is no such record.
    NotFound,
    /// 415: the body of the request is not announced as JSON.
    UnsupportedMediaType,
    /// 500: the store failed.
    InternalServerError,
}

impl Status {
    /// The number of the status.
    pub open spec fn number(self) -> u16 {
        match self {
            Status::BadRequest => 400,
            Status::Unauthorized => 401,
            Status::NotFound => 404,
            Status::UnsupportedMediaType => 415,
            Status::InternalServerError => 500,
        }
    }

    /// The number of the status.
    pub fn code(&self) -> (code: u16)
        ensures
            code == self.number(),
    {
        match self {
            Status::BadRequest => 400,
            Status::Unauthorized => 401,
            Status::NotFound => 404,
            Status::UnsupportedMediaType => 415,
            Status::InternalServerError => 500,
        }
    }
}

/// Refuses a request.
pub fn status_error<T>(http_status: Status) -> (r: Result<T, Status>)
    ensures
        r == Err::<T, Status>(http_status),
{
    Err(http_status)
}

} // verus!
