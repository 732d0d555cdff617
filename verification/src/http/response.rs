//! Responses and their wire form.

use vstd::prelude::*;

use crate::text::dec_str;
use crate::text::u16_to_string;

verus! {

/// The status codes this server sends.
#[derive(Debug, Clone, Copy, PartialEq, Eq, Structural)]
pub enum StatusCode {
    Okay,
    BadRequest,
    NotFound,
}

impl StatusCode {
    /// The numeric code.
    pub open spec fn spec_code(self) -> u16 {
        match self {
            StatusCode::Okay => 200,
            StatusCode::BadRequest => 400,
            StatusCode::NotFound => 404,
        }
    }

    /// The numeric code, for logging and serialization.
    pub fn code(self) -> (c: u16)
        ensures
            c == self.spec_code(),
    {
        match self {
            StatusCode::Okay => 200,
            StatusCode::BadRequest => 400,
            StatusCode::NotFound => 404,
        }
    }

    /// The standard reason phrase of the code.
    pub open spec fn spec_reason(self) -> Seq<char> {
        match self {
            StatusCode::Okay => "OK"@,
            StatusCode::BadRequest => "Bad Request"@,
            StatusCode::NotFound => "Not Found"@,
        }
    }

    /// The standard reason phrase, as written on the status line.
    pub fn reason(self) -> (r: &'static str)
        ensures
            r@ == self.spec_reason(),
    {
        match self {
            StatusCode::Okay => "OK",
            StatusCode::BadRequest => "Bad Request",
            StatusCode::NotFound => "Not Found",
        }
    }
}

/// The mathematical value of a response: its status and the characters of
/// its body, if it has one.
pub ghost struct ResponseModel {
    pub status: StatusCode,
    pub body: Option<Seq<char>>,
}

/// What a handler answers: a status and an optional textual body.
#[derive(Debug)]
pub struct Response {
    pub status: StatusCode,
    pub body: Option<String>,
}

impl View for Response {
    type V = ResponseModel;

    open spec fn view(&self) -> ResponseModel {
        ResponseModel {
            status: self.status,
            body: match self.body {
                Some(b) => Some(b@),
                None => None,
            },
        }
    }
}

/// The wire form of a response: the status line, a blank line, then the body
/// if there is one. No headers are sent.
pub open spec fn serialize_spec(m: ResponseModel) -> Seq<char> {
    "HTTP/1.1 "@ + dec_str(m.status.spec_code() as nat) + " "@ + m.status.spec_reason()
        + "\r\n\r\n"@ + (match m.body {
        Some(b) => b,
        None => Seq::<char>::empty(),
    })
}

impl Response {
    /// A response with the given status and body.
    pub fn new(status: StatusCode, body: Option<String>) -> (r: Response)
        ensures
            r.status == status,
            r@ == (ResponseModel {
                status,
                body: match body {
                    Some(b) => Some(b@),
                    None => None,
                },
            }),
    {
        Response { status, body }
    }

    /// The bytes-to-be of this response: its full wire form as text.
    pub fn serialize(&self) -> (r: String)
        ensures
            r@ == serialize_spec(self@),
    {
        let mut out = String::from_str("HTTP/1.1 ");
        let code = u16_to_string(self.status.code());
        out.append(code.as_str());
        out.append(" ");
        out.append(self.status.reason());
        out.append("\r\n\r\n");
        match &self.body {
            Some(b) => {
                out.append(b.as_str());
            },
            None => {},
        }
        proof {
            assert(out@ =~= serialize_spec(self@));
        }
        out
    }
}

} // verus!
