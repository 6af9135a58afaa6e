//! The two human-readable trace lines of the proxy: one before dispatch
//! with the method and the assembled target, one on receipt with the
//! response body decoded as text.

use vstd::prelude::*;
use vstd::string::StringSliceAdditionalSpecFns;
use crate::bytes::copy_bytes;
use crate::model::OutboundRequest;

verus! {

/// Names the text that lossy UTF-8 decoding makes of a byte string: a
/// function of the bytes alone.
pub uninterp spec fn lossy_text(b: Seq<u8>) -> Seq<u8>;

/// Relies on `String::from_utf8_lossy`: the decoded text — invalid
/// sequences replaced by the replacement character — depends on the bytes
/// alone.
#[verifier::external_body]
fn utf8_lossy(b: &[u8]) -> (r: Vec<u8>)
    ensures
        r@ == lossy_text(b@),
{
    String::from_utf8_lossy(b).into_owned().into_bytes()
}

/// The trace line emitted before dispatch: `--> {method} {target}`.
pub open spec fn dispatch_line(method: Seq<u8>, uri: Seq<u8>) -> Seq<u8> {
    "--> ".spec_bytes() + method + " ".spec_bytes() + uri
}

/// The dispatch trace line for an outbound request, as `dispatch_line`
/// describes it.
pub fn dispatch_trace(o: &OutboundRequest) -> (r: Vec<u8>)
    ensures
        r@ == dispatch_line(o.method@, o.uri@),
{
    let mut r = ("--> ").as_bytes_vec();
    let mut m = copy_bytes(o.method.as_slice());
    r.append(&mut m);
    let mut sp = (" ").as_bytes_vec();
    r.append(&mut sp);
    let mut u = copy_bytes(o.uri.as_slice());
    r.append(&mut u);
    proof {
        assert(r@ =~= dispatch_line(o.method@, o.uri@));
    }
    r
}

/// The trace line emitted on receipt: `<-- Response body: {text}`, the
/// text being the response body decoded lossily as UTF-8.
pub open spec fn response_line(body: Seq<u8>) -> Seq<u8> {
    "<-- Response body: ".spec_bytes() + lossy_text(body)
}

/// The receipt trace line for a response body, as `response_line`
/// describes it.
pub fn response_trace(body: &[u8]) -> (r: Vec<u8>)
    ensures
        r@ == response_line(body@),
{
    let mut r = ("<-- Response body: ").as_bytes_vec();
    let mut t = utf8_lossy(body);
    r.append(&mut t);
    r
}

} // verus!
