//! The data model of one proxied exchange: the inbound request as the
//! listener hands it over, the outbound request to be sent upstream, the
//! response, and the per-request decision.
//!
//! Every textual component (method, path, header names and values, bodies)
//! is kept as plain bytes, so that passthrough can be stated byte for byte.

use vstd::prelude::*;

verus! {

/// One header field as received: name and value, bytes as on the wire.
#[derive(Clone, Debug, PartialEq, Eq)]
pub struct Header {
    pub name: Vec<u8>,
    pub value: Vec<u8>,
}

/// One inbound request, owned by the handler for the length of one call.
///
/// `path_and_query` is `None` when the request target carries no
/// path-and-query component at all.
#[derive(Debug)]
pub struct InboundRequest {
    pub method: Vec<u8>,
    pub path_and_query: Option<Vec<u8>>,
    pub headers: Vec<Header>,
    pub body: Vec<u8>,
}

/// The request to be issued upstream: same method, the assembled target
/// URI, and the inbound headers and body moved over verbatim.
#[derive(Debug)]
pub struct OutboundRequest {
    pub method: Vec<u8>,
    pub uri: Vec<u8>,
    pub headers: Vec<Header>,
    pub body: Vec<u8>,
}

/// A response: status code, headers, and the buffered body.
#[derive(Debug)]
pub struct HttpResponse {
    pub status: u16,
    pub headers: Vec<Header>,
    pub body: Vec<u8>,
}

/// What the handler decides for one inbound request.
///
/// - `Reject`: the request targets the proxy itself; the carried response
///   goes straight back to the caller and nothing is sent upstream.
/// - `Forward`: send the carried request upstream and relay its response.
/// - `InvalidTarget`: the assembled target is not a well-formed URI; the
///   exchange fails without an upstream attempt.
#[derive(Debug)]
pub enum Decision {
    Reject(HttpResponse),
    Forward(OutboundRequest),
    InvalidTarget,
}

} // verus!
