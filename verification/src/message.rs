//! The request that comes in and the response that goes out, as plain
//! values.

use crate::mode::Mode;
use vstd::prelude::*;

verus! {

/// What a request holds. Only the query is read here; the body is never
/// looked at.
#[derive(Debug)]
pub struct Request {
    pub method: String,
    pub path: String,
    /// What follows the `?` of the address, if there is one.
    pub query: Option<String>,
    /// The headers, each name with its value.
    pub headers: Vec<(String, String)>,
    pub body: Vec<u8>,
}

impl Request {
    /// The query as text.
    pub open spec fn query_text(&self) -> Option<Seq<char>> {
        match self.query {
            Some(query) => Some(query@),
            None => None,
        }
    }
}

/// What a response holds.
#[derive(Debug)]
pub struct Response {
    pub status: u16,
    /// What kind of content the body is.
    pub content_type: String,
    /// The other headers, each name with its value.
    pub headers: Vec<(String, String)>,
    pub body: Vec<u8>,
}

impl Response {
    /// The response with status 200, no content type and no headers, that
    /// holds `body`.
    pub fn new(body: Vec<u8>) -> (r: Response)
        ensures
            r.status == 200,
            r.content_type@ == Seq::<char>::empty(),
            r.headers@ == Seq::<(String, String)>::empty(),
            r.body == body,
    {
        Response { status: 200, content_type: String::new(), headers: Vec::new(), body }
    }

    /// Whether this is `base` with the body `body` in the mode `mode`: the
    /// status and the headers of `base`, the content type of the mode, and
    /// the body.
    pub open spec fn carries(&self, base: Response, mode: Mode, body: Seq<u8>) -> bool {
        &&& self.status == base.status
        &&& self.headers == base.headers
        &&& self.content_type@ == mode.content_kind()
        &&& self.body@ == body
    }

    /// This response with `body` as its body, in the mode `mode`. The status
    /// and the headers stay; the content type becomes that of the mode.
    pub fn with_body(self, mode: Mode, body: Vec<u8>) -> (r: Response)
        ensures
            r.carries(self, mode, body@),
    {
        Response {
            status: self.status,
            content_type: mode.content_type().to_owned(),
            headers: self.headers,
            body,
        }
    }
}

} // verus!
