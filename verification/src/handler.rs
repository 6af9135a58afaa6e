//! The forwarding handler: one inbound request in, one decision out.
//!
//! `plan` performs target extraction, loop prevention, scheme selection
//! and URI assembly, and builds the outbound request by moving the
//! inbound method, headers and body over verbatim. `plan_post` is the
//! full statement of what the decision means; the proof functions below
//! state the laws of the pipeline over it.

use vstd::prelude::*;
use vstd::string::StringSliceAdditionalSpecFns;
use crate::config::{ProxyConfig, is_self_host};
use crate::host::{host_of, extract_host};
use crate::model::{Header, InboundRequest, OutboundRequest, HttpResponse, Decision};
use crate::target::{target_uri, uri_ok, assemble_target, target_parses};

verus! {

/// The fixed text of the loop-prevention rejection body.
pub open spec fn rejection_text() -> Seq<u8> {
    "Request to proxy itself not allowed".spec_bytes()
}

/// What a loop-prevention rejection looks like: status 400, no headers,
/// the fixed text as body.
pub open spec fn is_rejection(r: HttpResponse) -> bool {
    &&& r.status == 400
    &&& r.headers@.len() == 0
    &&& r.body@ == rejection_text()
}

/// The effective path-and-query of a request: the component as given, or
/// `/` when the request target carries none.
pub open spec fn path_or_slash(p: Option<Vec<u8>>) -> Seq<u8> {
    match p {
        Some(v) => v@,
        None => "/".spec_bytes(),
    }
}

/// The target host of a request: its first `Host` header, or the
/// placeholder.
pub open spec fn request_host(req: InboundRequest) -> Seq<u8> {
    host_of(req.headers@)
}

/// The upstream target a request resolves to.
pub open spec fn request_target(req: InboundRequest) -> Seq<u8> {
    target_uri(request_host(req), path_or_slash(req.path_and_query))
}

/// Everything `plan` guarantees of its decision `d` for the inbound
/// request `req`, with the proxy bound to `port`:
/// the request is rejected exactly when its host names the proxy itself,
/// and the rejection is the fixed 400; it is forwarded exactly when it is
/// not self-targeted and its assembled target is a well-formed URI, and
/// then the outbound request carries the inbound method, that target, and
/// the inbound headers and body unchanged; the target is invalid in
/// exactly the remaining case.
pub open spec fn plan_post(port: u16, req: InboundRequest, d: Decision) -> bool {
    let host = request_host(req);
    let uri = request_target(req);
    &&& (is_self_host(port, host) <==> d matches Decision::Reject(_))
    &&& (d matches Decision::Reject(r) ==> is_rejection(r))
    &&& ((!is_self_host(port, host) && uri_ok(uri)) <==> d matches Decision::Forward(_))
    &&& (d matches Decision::Forward(o) ==> {
        &&& o.method == req.method
        &&& o.uri@ == uri
        &&& o.headers == req.headers
        &&& o.body == req.body
    })
    &&& ((!is_self_host(port, host) && !uri_ok(uri)) <==> d matches Decision::InvalidTarget)
}

/// Decide one inbound request: reject it when it targets the proxy
/// itself, otherwise assemble the upstream target and hand back the
/// outbound request with headers and body moved over verbatim, or report
/// the target invalid when it does not parse as a URI.
pub fn plan(config: &ProxyConfig, req: InboundRequest) -> (d: Decision)
    ensures
        plan_post(config.port, req, d),
{
    let host = extract_host(&req.headers);
    if config.is_self(host.as_slice()) {
        let body = ("Request to proxy itself not allowed").as_bytes_vec();
        return Decision::Reject(HttpResponse { status: 400, headers: Vec::new(), body });
    }
    let path: Vec<u8> = match req.path_and_query {
        Some(p) => p,
        None => ("/").as_bytes_vec(),
    };
    let uri = assemble_target(host.as_slice(), path.as_slice());
    if !target_parses(&uri) {
        return Decision::InvalidTarget;
    }
    Decision::Forward(OutboundRequest {
        method: req.method,
        uri,
        headers: req.headers,
        body: req.body,
    })
}

/// Rebuild the client-facing response from the upstream pieces: the
/// relayed response carries exactly the upstream status, headers, and
/// buffered body.
pub fn client_response(status: u16, headers: Vec<Header>, body: Vec<u8>) -> (r: HttpResponse)
    ensures
        r.status == status,
        r.headers == headers,
        r.body == body,
{
    HttpResponse { status, headers, body }
}

/// Loop prevention: a request whose `Host` names the proxy itself is
/// answered with the fixed 400 rejection, and is never forwarded.
pub proof fn lemma_self_request_rejected(port: u16, req: InboundRequest, d: Decision)
    requires
        plan_post(port, req, d),
        is_self_host(port, request_host(req)),
    ensures
        d matches Decision::Reject(r) && is_rejection(r),
        !(d matches Decision::Forward(_)),
{
}

/// Default scheme: for a request whose host is not the proxy itself and
/// whose path is not already absolute, the assembled target is
/// `https://{host}{path_and_query}`, the path-and-query defaulting to `/`
/// when the request carries none.
pub proof fn lemma_default_scheme(port: u16, req: InboundRequest)
    requires
        !is_self_host(port, request_host(req)),
        !"http://".spec_bytes().is_prefix_of(path_or_slash(req.path_and_query)),
        !"https://".spec_bytes().is_prefix_of(path_or_slash(req.path_and_query)),
    ensures
        request_target(req) == "https://".spec_bytes() + request_host(req) + path_or_slash(
            req.path_and_query,
        ),
{
}

/// No doubled scheme: for a request whose path already begins with
/// `http://` or `https://`, nothing is prepended — the assembled target is
/// the host and the path concatenated exactly as given.
pub proof fn lemma_absolute_path_kept(req: InboundRequest)
    requires
        "http://".spec_bytes().is_prefix_of(path_or_slash(req.path_and_query)) || "https://".spec_bytes().is_prefix_of(
            path_or_slash(req.path_and_query),
        ),
    ensures
        request_target(req) == request_host(req) + path_or_slash(req.path_and_query),
{
    assert(Seq::<u8>::empty() + request_host(req) + path_or_slash(req.path_and_query) =~= request_host(
        req,
    ) + path_or_slash(req.path_and_query));
}

/// Lossless passthrough: whenever a request is forwarded, the outbound
/// request carries exactly the inbound header sequence — names, values,
/// order, duplicates and case as received — and exactly the inbound body
/// bytes and method.
pub proof fn lemma_passthrough(port: u16, req: InboundRequest, d: Decision)
    requires
        plan_post(port, req, d),
        d matches Decision::Forward(_),
    ensures
        d matches Decision::Forward(o) && o.headers == req.headers && o.body == req.body
            && o.method == req.method,
{
}

/// Echo round trip: against a transport that answers any outbound request
/// with status 200 and that request's own headers and body, the
/// client-facing response carries exactly the inbound headers and body.
pub proof fn lemma_echo_round_trip(
    port: u16,
    req: InboundRequest,
    d: Decision,
    echoed: HttpResponse,
)
    requires
        plan_post(port, req, d),
        d matches Decision::Forward(o) && echoed.status == 200 && echoed.headers == o.headers
            && echoed.body == o.body,
    ensures
        echoed.status == 200,
        echoed.headers == req.headers,
        echoed.body == req.body,
{
}

} // verus!
