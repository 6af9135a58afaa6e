//! The proxy's own identity: the bound port, and the two textual forms of
//! the bound address that a self-targeting request may carry in `Host`.
//!
//! Both forms are derived from the configured port, so the loop-prevention
//! comparison cannot drift when the port changes.

use vstd::prelude::*;
use vstd::string::StringSliceAdditionalSpecFns;
use crate::bytes::bytes_eq;

verus! {

/// The ASCII digit for a value below ten.
pub open spec fn digit_byte(d: nat) -> u8 {
    (48 + d) as u8
}

/// The decimal rendering of a number, most significant digit first, with
/// no leading zeros (a single `0` for zero itself).
pub open spec fn dec_bytes(n: nat) -> Seq<u8>
    decreases n,
{
    if n < 10 {
        seq![digit_byte(n)]
    } else {
        dec_bytes(n / 10).push(digit_byte(n % 10))
    }
}

/// The decimal rendering of a port number, as bytes.
pub fn dec_digits(n: u16) -> (v: Vec<u8>)
    ensures
        v@ == dec_bytes(n as nat),
    decreases n,
{
    if n < 10 {
        let mut v: Vec<u8> = Vec::new();
        v.push(48 + (n as u8));
        proof {
            assert(v@ =~= dec_bytes(n as nat));
        }
        v
    } else {
        assert(n / 10 < n) by (nonlinear_arith)
            requires
                n >= 10,
        ;
        let mut v = dec_digits(n / 10);
        v.push(48 + ((n % 10) as u8));
        proof {
            assert(v@ =~= dec_bytes(n as nat));
        }
        v
    }
}

/// The hostname form of the proxy's own address: `localhost:<port>`.
pub open spec fn hostname_form(port: u16) -> Seq<u8> {
    "localhost:".spec_bytes() + dec_bytes(port as nat)
}

/// The numeric-loopback form of the proxy's own address: `127.0.0.1:<port>`.
pub open spec fn loopback_form(port: u16) -> Seq<u8> {
    "127.0.0.1:".spec_bytes() + dec_bytes(port as nat)
}

/// Whether a `Host` value names the proxy itself, in either of the two
/// recognised forms. This is a literal comparison against those two forms
/// only; other aliases of the same machine are deliberately not caught.
pub open spec fn is_self_host(port: u16, host: Seq<u8>) -> bool {
    host == hostname_form(port) || host == loopback_form(port)
}

/// Immutable per-process configuration: the port the proxy is bound to,
/// fixed at startup and read only for loop prevention.
#[derive(Clone, Copy, Debug)]
pub struct ProxyConfig {
    pub port: u16,
}

impl ProxyConfig {
    pub fn new(port: u16) -> (c: ProxyConfig)
        ensures
            c.port == port,
    {
        ProxyConfig { port }
    }

    /// The `localhost:<port>` form of the bound address.
    pub fn hostname_address(&self) -> (v: Vec<u8>)
        ensures
            v@ == hostname_form(self.port),
    {
        let mut v = ("localhost:").as_bytes_vec();
        let mut d = dec_digits(self.port);
        v.append(&mut d);
        v
    }

    /// The `127.0.0.1:<port>` form of the bound address.
    pub fn loopback_address(&self) -> (v: Vec<u8>)
        ensures
            v@ == loopback_form(self.port),
    {
        let mut v = ("127.0.0.1:").as_bytes_vec();
        let mut d = dec_digits(self.port);
        v.append(&mut d);
        v
    }

    /// Whether `host` names this proxy itself.
    pub fn is_self(&self, host: &[u8]) -> (r: bool)
        ensures
            r == is_self_host(self.port, host@),
    {
        let hostname = self.hostname_address();
        let loopback = self.loopback_address();
        bytes_eq(host, hostname.as_slice()) || bytes_eq(host, loopback.as_slice())
    }
}

} // verus!
