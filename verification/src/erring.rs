use crate::text::{decimal, decimal_text};
use axum::http::StatusCode;
use vstd::prelude::*;
use vstd::string::*;

verus! {

/// A failure that is answered with a status code and a plain text.
#[derive(Debug, Clone, PartialEq, Eq)]
pub struct HTTPError(pub u16, pub String);

/// An `HTTPError` with its message as a text.
pub ghost struct Failure {
    pub code: u16,
    pub message: Seq<char>,
}

impl View for HTTPError {
    type V = Failure;

    open spec fn view(&self) -> Failure {
        Failure { code: self.0, message: self.1@ }
    }
}

/// Whether a number is a status code: one from 100 up to 999.
pub open spec fn is_status(code: u16) -> bool {
    100 <= code && code < 1000
}

/// The status that answers a failure with the code `code`: the code itself where
/// it is a status code, and 500 where it is none.
pub open spec fn answer_status(code: u16) -> u16 {
    if is_status(code) {
        code
    } else {
        500
    }
}

/// `StatusCode::from_u16`, the status handed back as its number: a number from 100
/// up to 999 is a status code, any other is refused.
#[verifier::external_body]
fn status_code(code: u16) -> (r: Option<u16>)
    ensures
        r == if is_status(code) { Some(code) } else { None },
{
    match StatusCode::from_u16(code) {
        Ok(status) => Some(status.as_u16()),
        Err(_) => None,
    }
}

impl HTTPError {
    /// The failure in one line: the code, a comma and a space, and the message.
    pub fn to_string(&self) -> (r: String)
        ensures
            r@ == decimal(self.0 as nat) + ", "@ + self.1@,
    {
        let mut r = decimal_text(self.0);
        r.append(", ");
        r.append(self.1.as_str());
        r
    }

    /// The status and the body of the response that answers this failure.
    pub fn into_response(self) -> (r: (u16, String))
        ensures
            r.0 == answer_status(self.0),
            r.1 == self.1,
    {
        let status = match status_code(self.0) {
            Some(status) => status,
            None => 500,
        };
        (status, self.1)
    }
}

} // verus!
