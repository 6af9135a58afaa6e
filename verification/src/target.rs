//! Upstream target assembly: scheme selection and URI concatenation, and
//! the well-formedness verdict of the URI parser.

use vstd::prelude::*;
use vstd::string::StringSliceAdditionalSpecFns;
use crate::bytes::{starts_with, copy_bytes};

verus! {

/// The scheme prepended to a target: nothing when the path itself already
/// begins with `http://` or `https://` (the request is taken as fully
/// qualified), `https://` otherwise — the default upstream scheme is TLS.
pub open spec fn scheme_prefix(path: Seq<u8>) -> Seq<u8> {
    if "http://".spec_bytes().is_prefix_of(path) || "https://".spec_bytes().is_prefix_of(path) {
        Seq::<u8>::empty()
    } else {
        "https://".spec_bytes()
    }
}

/// The assembled upstream target: `{scheme}{host}{path_and_query}`,
/// concatenated as given.
pub open spec fn target_uri(host: Seq<u8>, path: Seq<u8>) -> Seq<u8> {
    scheme_prefix(path) + host + path
}

/// The scheme to put before `host`, as `scheme_prefix` describes it.
pub fn scheme_for(path: &[u8]) -> (r: Vec<u8>)
    ensures
        r@ == scheme_prefix(path@),
{
    let http = ("http://").as_bytes_vec();
    let https = ("https://").as_bytes_vec();
    if starts_with(path, http.as_slice()) || starts_with(path, https.as_slice()) {
        let r: Vec<u8> = Vec::new();
        proof {
            assert(r@ =~= Seq::<u8>::empty());
        }
        r
    } else {
        https
    }
}

/// The assembled upstream target, as `target_uri` describes it.
pub fn assemble_target(host: &[u8], path: &[u8]) -> (r: Vec<u8>)
    ensures
        r@ == target_uri(host@, path@),
{
    let mut r = scheme_for(path);
    let mut h = copy_bytes(host);
    let mut p = copy_bytes(path);
    r.append(&mut h);
    r.append(&mut p);
    proof {
        assert(r@ =~= target_uri(host@, path@));
    }
    r
}

/// Names the verdict of the URI parser on a byte string: whether the
/// bytes spell a well-formed URI is a function of the bytes alone.
pub uninterp spec fn uri_ok(s: Seq<u8>) -> bool;

/// Relies on `hyper::Uri`'s `FromStr` implementation: whether a string
/// parses as a URI depends on its characters alone, and bytes that are
/// not valid UTF-8 cannot spell one.
#[verifier::external_body]
pub(crate) fn target_parses(s: &Vec<u8>) -> (r: bool)
    ensures
        r == uri_ok(s@),
{
    match core::str::from_utf8(s.as_slice()) {
        Ok(text) => text.parse::<hyper::Uri>().is_ok(),
        Err(_) => false,
    }
}

} // verus!
