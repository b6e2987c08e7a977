//! The plain values that stand for a request and for a response.

use vstd::prelude::*;

use crate::text::str_eq;

verus! {

/// What a request says before its body.
#[derive(Debug)]
pub struct RequestHead {
    /// The method, as the transport spells it (`GET`, `POST`, ...).
    pub method: String,
    /// The request target, as received.
    pub url: String,
    /// The protocol version, such as `1.1`.
    pub http_version: String,
    /// The headers as name and value, in the order received.
    pub headers: Vec<(String, String)>,
}

/// A complete response: status, content type and body.
#[derive(Debug)]
pub struct Response {
    pub status: u16,
    pub content_type: String,
    pub body: Vec<u8>,
}

impl RequestHead {
    /// Whether the request uses the POST method.
    pub fn is_post(&self) -> (post: bool)
        ensures
            post == (self.method@ == "POST"@),
    {
        str_eq(self.method.as_str(), "POST")
    }
}

} // verus!
