//! Target extraction: reading the `Host` header out of the inbound header
//! list, with the fixed placeholder when no usable value is present.

use vstd::prelude::*;
use vstd::string::StringSliceAdditionalSpecFns;
use crate::bytes::{lower_bytes, eq_ignore_ascii_case, copy_bytes};
use crate::model::Header;

verus! {

/// The placeholder substituted when the request carries no usable `Host`
/// header; it cannot spell a well-formed URI authority, so assembling a
/// target from it fails downstream.
pub open spec fn missing_host() -> Seq<u8> {
    "<missing>".spec_bytes()
}

/// Whether a header name is `Host`, compared ASCII-case-insensitively.
pub open spec fn is_host_name(name: Seq<u8>) -> bool {
    lower_bytes(name) == lower_bytes("host".spec_bytes())
}

/// Whether a header value can be read as text: every byte is visible
/// ASCII (32 to 126) or a horizontal tab.
pub open spec fn is_readable_value(v: Seq<u8>) -> bool {
    forall|i: int| 0 <= i < v.len() ==> (32 <= #[trigger] v[i] < 127 || v[i] == 9)
}

/// The target host of a header list: the value of the first header named
/// `Host`, when that value is readable text; the placeholder when the
/// first such value is unreadable or no such header exists.
pub open spec fn host_of(headers: Seq<Header>) -> Seq<u8>
    decreases headers.len(),
{
    if headers.len() == 0 {
        missing_host()
    } else if is_host_name(headers[0].name@) {
        if is_readable_value(headers[0].value@) {
            headers[0].value@
        } else {
            missing_host()
        }
    } else {
        host_of(headers.drop_first())
    }
}

/// Whether a header value can be read as text (executable form).
pub fn value_is_readable(v: &[u8]) -> (r: bool)
    ensures
        r == is_readable_value(v@),
{
    let mut i: usize = 0;
    while i < v.len()
        invariant
            i <= v@.len(),
            forall|j: int| 0 <= j < i ==> (32 <= #[trigger] v@[j] < 127 || v@[j] == 9),
        decreases v@.len() - i,
    {
        let b = v[i];
        if !(32 <= b && b < 127 || b == 9) {
            assert(!is_readable_value(v@));
            return false;
        }
        i += 1;
    }
    true
}

/// The target host of the inbound headers, as `host_of` describes it.
pub fn extract_host(headers: &Vec<Header>) -> (r: Vec<u8>)
    ensures
        r@ == host_of(headers@),
{
    let host_lit = ("host").as_bytes_vec();
    let mut i: usize = 0;
    proof {
        assert(headers@.skip(0) =~= headers@);
    }
    while i < headers.len()
        invariant
            i <= headers@.len(),
            host_lit@ == "host".spec_bytes(),
            host_of(headers@) == host_of(headers@.skip(i as int)),
            forall|j: int| 0 <= j < i ==> !is_host_name(#[trigger] headers@[j].name@),
        decreases headers@.len() - i,
    {
        let h = &headers[i];
        proof {
            assert(headers@.skip(i as int)[0] == headers@[i as int]);
        }
        if eq_ignore_ascii_case(h.name.as_slice(), host_lit.as_slice()) {
            if value_is_readable(h.value.as_slice()) {
                return copy_bytes(h.value.as_slice());
            } else {
                return ("<missing>").as_bytes_vec();
            }
        }
        proof {
            assert(headers@.skip(i as int).drop_first() =~= headers@.skip(i as int + 1));
        }
        i += 1;
    }
    proof {
        assert(headers@.skip(i as int).len() == 0);
    }
    ("<missing>").as_bytes_vec()
}

} // verus!
