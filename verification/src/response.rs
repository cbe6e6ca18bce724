//! Responses that the proxy writes itself, as plain values.

use vstd::prelude::*;

verus! {

/// A response that the proxy answers with on its own account: a status, the
/// headers in the order they are to be sent, and a text body.
#[derive(Debug, PartialEq, Eq)]
pub struct ProxyResponse {
    pub status: u16,
    pub headers: Vec<(String, String)>,
    pub body: String,
}

/// What a `ProxyResponse` says.
pub struct ResponseModel {
    pub status: int,
    pub headers: Seq<(Seq<char>, Seq<char>)>,
    pub body: Seq<char>,
}

impl View for ProxyResponse {
    type V = ResponseModel;

    open spec fn view(&self) -> ResponseModel {
        ResponseModel {
            status: self.status as int,
            headers: self.headers@.map_values(|h: (String, String)| (h.0@, h.1@)),
            body: self.body@,
        }
    }
}

/// The body of the refusal sent for `host`.
pub open spec fn blocked_body(host: Seq<char>) -> Seq<char> {
    "Access to "@ + host + " is blocked by proxy filter rules"@
}

/// The refusal sent for `host`: status 403, a plain-text content type, and a
/// body that names the host as the client gave it.
pub open spec fn blocked(host: Seq<char>) -> ResponseModel {
    ResponseModel {
        status: 403,
        headers: seq![("Content-Type"@, "text/plain"@)],
        body: blocked_body(host),
    }
}

/// The acknowledgement of an accepted CONNECT: status 200, no headers, no
/// body.
pub open spec fn tunnel_ready() -> ResponseModel {
    ResponseModel { status: 200, headers: Seq::empty(), body: Seq::empty() }
}

} // verus!
