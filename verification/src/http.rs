//! The HTTP surface: methods, requests, responses and parse errors.

use vstd::prelude::*;

pub mod method;
pub mod parse_error;
pub mod request;
pub mod response;

pub use method::Method;
pub use parse_error::ParseError;
pub use request::Request;
pub use response::Response;
pub use response::StatusCode;

verus! {

/// A capability that turns a parsed request into a response. The embedding
/// program implements it for handlers that need the filesystem or other
/// resources the library does not touch.
pub trait Handler {
    fn handle_request(&mut self, request: &Request) -> Response;
}

} // verus!
