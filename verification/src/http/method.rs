//! The closed set of HTTP verbs and their wire tokens.

use vstd::prelude::*;

use crate::text::str_eq;

verus! {

broadcast use vstd::string::group_string_axioms;

/// An HTTP verb. Created by parsing a token; an unknown token is an error,
/// never a default verb.
#[derive(Debug, Clone, Copy, PartialEq, Eq, Structural)]
pub enum Method {
    GET,
    POST,
    PUT,
    DELETE,
    HEAD,
    OPTIONS,
    PATCH,
    TRACE,
    CONNECT,
}

/// The error of parsing a method token.
#[derive(Debug, Clone, Copy, PartialEq, Eq, Structural)]
pub enum MethodError {
    InvalidMethod,
}

impl Method {
    /// The canonical token of this verb, as it appears on the wire.
    pub open spec fn token(self) -> Seq<char> {
        match self {
            Method::GET => "GET"@,
            Method::POST => "POST"@,
            Method::PUT => "PUT"@,
            Method::DELETE => "DELETE"@,
            Method::HEAD => "HEAD"@,
            Method::OPTIONS => "OPTIONS"@,
            Method::PATCH => "PATCH"@,
            Method::TRACE => "TRACE"@,
            Method::CONNECT => "CONNECT"@,
        }
    }

    /// Which verb a token denotes: an exact, case-sensitive match, or an
    /// error when it is none of the nine.
    pub open spec fn from_token(s: Seq<char>) -> Result<Method, MethodError> {
        if s == "GET"@ {
            Ok(Method::GET)
        } else if s == "POST"@ {
            Ok(Method::POST)
        } else if s == "PUT"@ {
            Ok(Method::PUT)
        } else if s == "DELETE"@ {
            Ok(Method::DELETE)
        } else if s == "HEAD"@ {
            Ok(Method::HEAD)
        } else if s == "OPTIONS"@ {
            Ok(Method::OPTIONS)
        } else if s == "PATCH"@ {
            Ok(Method::PATCH)
        } else if s == "TRACE"@ {
            Ok(Method::TRACE)
        } else if s == "CONNECT"@ {
            Ok(Method::CONNECT)
        } else {
            Err(MethodError::InvalidMethod)
        }
    }

    /// Parse a method token.
    pub fn from_str(s: &str) -> (r: Result<Method, MethodError>)
        ensures
            r == Method::from_token(s@),
    {
        if str_eq(s, "GET") {
            Ok(Method::GET)
        } else if str_eq(s, "POST") {
            Ok(Method::POST)
        } else if str_eq(s, "PUT") {
            Ok(Method::PUT)
        } else if str_eq(s, "DELETE") {
            Ok(Method::DELETE)
        } else if str_eq(s, "HEAD") {
            Ok(Method::HEAD)
        } else if str_eq(s, "OPTIONS") {
            Ok(Method::OPTIONS)
        } else if str_eq(s, "PATCH") {
            Ok(Method::PATCH)
        } else if str_eq(s, "TRACE") {
            Ok(Method::TRACE)
        } else if str_eq(s, "CONNECT") {
            Ok(Method::CONNECT)
        } else {
            Err(MethodError::InvalidMethod)
        }
    }

    /// The token of this verb, for logging and display.
    pub fn as_str(self) -> (r: &'static str)
        ensures
            r@ == self.token(),
    {
        match self {
            Method::GET => "GET",
            Method::POST => "POST",
            Method::PUT => "PUT",
            Method::DELETE => "DELETE",
            Method::HEAD => "HEAD",
            Method::OPTIONS => "OPTIONS",
            Method::PATCH => "PATCH",
            Method::TRACE => "TRACE",
            Method::CONNECT => "CONNECT",
        }
    }
}

impl MethodError {
    /// A human-readable description of the error.
    pub fn message(self) -> (r: &'static str)
        ensures
            r@ == "Invalid HTTP method"@,
    {
        "Invalid HTTP method"
    }
}

/// Law: parsing the token of any verb gives back that verb, and the token a
/// verb displays as is exactly the token it parses from.
pub proof fn lemma_method_token_round_trip(m: Method)
    ensures
        Method::from_token(m.token()) == Ok::<Method, MethodError>(m),
{
    reveal_strlit("GET");
    reveal_strlit("POST");
    reveal_strlit("PUT");
    reveal_strlit("DELETE");
    reveal_strlit("HEAD");
    reveal_strlit("OPTIONS");
    reveal_strlit("PATCH");
    reveal_strlit("TRACE");
    reveal_strlit("CONNECT");
    assert("GET"@.len() == 3 && "GET"@[0] == 'G');
    assert("POST"@.len() == 4 && "POST"@[0] == 'P');
    assert("PUT"@.len() == 3 && "PUT"@[0] == 'P');
    assert("DELETE"@.len() == 6 && "DELETE"@[0] == 'D');
    assert("HEAD"@.len() == 4 && "HEAD"@[0] == 'H');
    assert("OPTIONS"@.len() == 7 && "OPTIONS"@[0] == 'O');
    assert("PATCH"@.len() == 5 && "PATCH"@[0] == 'P');
    assert("TRACE"@.len() == 5 && "TRACE"@[0] == 'T');
    assert("CONNECT"@.len() == 7 && "CONNECT"@[0] == 'C');
    match m {
        Method::GET => {
            assert(Method::from_token("GET"@) == Ok::<Method, MethodError>(Method::GET));
        },
        Method::POST => {
            assert(Method::from_token("POST"@) == Ok::<Method, MethodError>(Method::POST));
        },
        Method::PUT => {
            assert(Method::from_token("PUT"@) == Ok::<Method, MethodError>(Method::PUT));
        },
        Method::DELETE => {
            assert(Method::from_token("DELETE"@) == Ok::<Method, MethodError>(Method::DELETE));
        },
        Method::HEAD => {
            assert(Method::from_token("HEAD"@) == Ok::<Method, MethodError>(Method::HEAD));
        },
        Method::OPTIONS => {
            assert(Method::from_token("OPTIONS"@) == Ok::<Method, MethodError>(Method::OPTIONS));
        },
        Method::PATCH => {
            assert(Method::from_token("PATCH"@) == Ok::<Method, MethodError>(Method::PATCH));
        },
        Method::TRACE => {
            assert(Method::from_token("TRACE"@) == Ok::<Method, MethodError>(Method::TRACE));
        },
        Method::CONNECT => {
            assert(Method::from_token("CONNECT"@) == Ok::<Method, MethodError>(Method::CONNECT));
        },
    }
}

} // verus!
