//! The response writer: the three status lines and the bytes of a response.

use vstd::prelude::*;
use vstd::string::{StrSliceExecFns, StringExecFns};
use vstd::utf8::encode_utf8;

verus! {

/// What opens a response that succeeded.
pub const OK_RESPONSE: &'static str = "HTTP/1.1 200 OK\r\nContent-Type: application/json\r\n\r\n";

/// What opens a response for something that does not exist.
pub const NOT_FOUND_RESPONSE: &'static str = "HTTP/1.1 404 Not Found\r\n\r\n";

/// What opens a response to a request that could not be served.
pub const INTERNAL_SERVER_ERROR_RESPONSE: &'static str =
    "HTTP/1.1 500 Internal Server Error\r\n\r\n";

/// How a request ended.
#[derive(Clone, Copy, Debug, PartialEq, Eq, Structural)]
pub enum Status {
    Success,
    NotFound,
    InternalServerError,
}

impl Status {
    /// The status code.
    pub open spec fn number(self) -> u16 {
        match self {
            Status::Success => 200,
            Status::NotFound => 404,
            Status::InternalServerError => 500,
        }
    }

    /// The status line, with the headers and the blank line that follow it.
    pub open spec fn head(self) -> Seq<char> {
        match self {
            Status::Success => OK_RESPONSE@,
            Status::NotFound => NOT_FOUND_RESPONSE@,
            Status::InternalServerError => INTERNAL_SERVER_ERROR_RESPONSE@,
        }
    }

    /// The status code.
    pub fn code(self) -> (code: u16)
        ensures
            code == self.number(),
    {
        match self {
            Status::Success => 200,
            Status::NotFound => 404,
            Status::InternalServerError => 500,
        }
    }

    /// The status line, with the headers and the blank line that follow it.
    pub fn status_line(self) -> (line: &'static str)
        ensures
            line@ == self.head(),
    {
        match self {
            Status::Success => OK_RESPONSE,
            Status::NotFound => NOT_FOUND_RESPONSE,
            Status::InternalServerError => INTERNAL_SERVER_ERROR_RESPONSE,
        }
    }
}

/// The text of a response: the status line and what follows it, then the content.
pub open spec fn response_text(status: Status, content: Seq<char>) -> Seq<char> {
    status.head() + content
}

/// The bytes of a response, as they go to the connection.
pub fn write_response(status: Status, content: &str) -> (bytes: Vec<u8>)
    ensures
        bytes@ == encode_utf8(response_text(status, content@)),
{
    let mut text = String::from_str(status.status_line());
    text.append(content);
    text.as_str().as_bytes_vec()
}

} // verus!
