//! HTTP-style status codes of responses.
use vstd::prelude::*;

verus! {

/// The classes of outcome that a response reports.
#[derive(Debug, Clone, Copy, PartialEq, Eq, Structural)]
pub enum Status {
    Success,
    BadRequest,
    NotFound,
    InternalError,
}

impl Status {
    /// The HTTP status code of each class.
    pub open spec fn code(self) -> u32 {
        match self {
            Status::Success => 200,
            Status::BadRequest => 400,
            Status::NotFound => 404,
            Status::InternalError => 500,
        }
    }
}

/// Relies on `http::StatusCode::as_u16` applied to the constants `OK`,
/// `BAD_REQUEST`, `NOT_FOUND` and `INTERNAL_SERVER_ERROR` of http 0.2, which
/// hold 200, 400, 404 and 500.
#[verifier::external_body]
pub(crate) fn status_code(s: Status) -> (r: u32)
    ensures
        r == s.code(),
{
    let c = match s {
        Status::Success => http::StatusCode::OK,
        Status::BadRequest => http::StatusCode::BAD_REQUEST,
        Status::NotFound => http::StatusCode::NOT_FOUND,
        Status::InternalError => http::StatusCode::INTERNAL_SERVER_ERROR,
    };
    c.as_u16() as u32
}

} // verus!
