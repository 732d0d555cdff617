//! The closed set of request-parsing failures.

use vstd::prelude::*;

verus! {

/// Why a byte buffer failed to parse as a request.
#[derive(Debug, Clone, Copy, PartialEq, Eq, Structural)]
pub enum ParseError {
    /// A missing request line, a missing method, URI or protocol token, or a
    /// malformed header line.
    InvalidRequest,
    /// The buffer is not valid UTF-8.
    InvalidEncoding,
    /// The protocol token does not start with `HTTP/`.
    InvalidProtocol,
    /// The method token is none of the known verbs.
    InvalidMethod,
}

impl ParseError {
    /// A human-readable description of the error.
    pub fn message(self) -> (r: &'static str)
        ensures
            self == ParseError::InvalidRequest ==> r@ == "Invalid HTTP request"@,
            self == ParseError::InvalidEncoding ==> r@ == "Invalid UTF-8 encoding"@,
            self == ParseError::InvalidProtocol ==> r@ == "Invalid HTTP protocol"@,
            self == ParseError::InvalidMethod ==> r@ == "Invalid HTTP method"@,
    {
        match self {
            ParseError::InvalidRequest => "Invalid HTTP request",
            ParseError::InvalidEncoding => "Invalid UTF-8 encoding",
            ParseError::InvalidProtocol => "Invalid HTTP protocol",
            ParseError::InvalidMethod => "Invalid HTTP method",
        }
    }
}

} // verus!
