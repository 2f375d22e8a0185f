//! How a request is turned down.

use vstd::prelude::*;

verus! {

/// The HTTP status of a request that is turned down.
#[derive(Debug, Clone, Copy, PartialEq, Eq, Structural)]
pub enum StatusCode {
    BadRequest,
    RequestTimeout,
    TooManyRequests,
    InternalServerError,
    ServiceUnavailable,
}

impl StatusCode {
    /// The number of the status.
    pub open spec fn code(self) -> u16 {
        match self {
            StatusCode::BadRequest => 400,
            StatusCode::RequestTimeout => 408,
            StatusCode::TooManyRequests => 429,
            StatusCode::InternalServerError => 500,
            StatusCode::ServiceUnavailable => 503,
        }
    }

    /// The number of the status.
    pub fn as_u16(&self) -> (code: u16)
        ensures
            code == self.code(),
    {
        match self {
            StatusCode::BadRequest => 400,
            StatusCode::RequestTimeout => 408,
            StatusCode::TooManyRequests => 429,
            StatusCode::InternalServerError => 500,
            StatusCode::ServiceUnavailable => 503,
        }
    }
}

/// A status and the text that goes with it.
#[derive(Debug, Clone)]
pub struct Rejection {
    pub status: StatusCode,
    pub message: String,
}

/// A [`Rejection`] with its text as a character sequence.
pub struct RejectionView {
    pub status: StatusCode,
    pub message: Seq<char>,
}

impl View for Rejection {
    type V = RejectionView;

    open spec fn view(&self) -> RejectionView {
        RejectionView { status: self.status, message: self.message@ }
    }
}

/// The rejection with this status and text.
pub open spec fn rejection(status: StatusCode, message: Seq<char>) -> RejectionView {
    RejectionView { status, message }
}

impl Rejection {
    pub(crate) fn new(status: StatusCode, message: &str) -> (res: Rejection)
        ensures
            res@ == rejection(status, message@),
    {
        Rejection { status, message: message.to_owned() }
    }
}

/// A rejection is told by its HTTP status, under the number that the status has in HTTP,
/// and its text.
pub proof fn law_rejection(r: Rejection, status: StatusCode, message: Seq<char>)
    ensures
        r@.status == r.status,
        r@.message == r.message@,
        rejection(status, message).status == status,
        rejection(status, message).message == message,
        status == StatusCode::BadRequest <==> status.code() == 400,
        status == StatusCode::RequestTimeout <==> status.code() == 408,
        status == StatusCode::TooManyRequests <==> status.code() == 429,
        status == StatusCode::InternalServerError <==> status.code() == 500,
        status == StatusCode::ServiceUnavailable <==> status.code() == 503,
{
}

} // verus!
