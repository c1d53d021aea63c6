//! How a failed request is answered.
use vstd::prelude::*;

use crate::pki::{clock_out_of_range_text, PkiError};

verus! {

/// The status code of every failed request: 500 Internal Server Error.
pub const INTERNAL_SERVER_ERROR: u16 = 500;

/// The text that starts the body of every failed request.
pub open spec fn failure_prefix() -> Seq<char> {
    "Something went wrong: "@
}

/// An error raised while answering a request, carried as its text.
pub struct ResponseError {
    pub message: String,
}

/// A status code and body to send back.
pub struct ErrorResponse {
    pub status: u16,
    pub body: String,
}

impl ResponseError {
    /// An error with the given text.
    pub fn new(message: String) -> (res: ResponseError)
        ensures
            res.message@ == message@,
    {
        ResponseError { message }
    }

    /// The error that a failed issuance step raises, carrying that step's text.
    pub fn from(err: PkiError) -> (res: ResponseError)
        ensures
            err is ClockOutOfRange ==> res.message@ == clock_out_of_range_text(),
    {
        ResponseError { message: err.message() }
    }

    /// The answer to the client: status 500 and the body
    /// `Something went wrong: ` followed by the error's text.
    pub fn into_response(self) -> (res: ErrorResponse)
        ensures
            res.status == INTERNAL_SERVER_ERROR,
            res.body@ == failure_prefix() + self.message@,
    {
        let mut body = String::from_str("Something went wrong: ");
        proof {
            reveal_strlit("Something went wrong: ");
        }
        body.append(self.message.as_str());
        ErrorResponse { status: INTERNAL_SERVER_ERROR, body }
    }
}

} // verus!
