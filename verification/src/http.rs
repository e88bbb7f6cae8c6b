//! Plain models of HTTP requests and replies: header lists as byte
//! pairs, and URL strings built from a session's target descriptor.

use vstd::prelude::*;
use crate::bytes::push_all;
use crate::target::{TargetDescriptor, UrlScheme};

verus! {

/// One HTTP header as name and value bytes.
#[derive(Debug)]
pub struct HttpHeader {
    pub name: Vec<u8>,
    pub value: Vec<u8>,
}

/// Mathematical model of one header.
pub struct HeaderModel {
    pub name: Seq<u8>,
    pub value: Seq<u8>,
}

impl View for HttpHeader {
    type V = HeaderModel;

    open spec fn view(&self) -> HeaderModel {
        HeaderModel { name: self.name@, value: self.value@ }
    }
}

/// Model sequence of a header list.
pub open spec fn headers_view(s: Seq<HttpHeader>) -> Seq<HeaderModel> {
    s.map_values(|h: HttpHeader| h@)
}

/// Decimal digits of a non-negative number, in ASCII.
pub open spec fn spec_dec_digits(n: int) -> Seq<u8>
    decreases n,
{
    if n < 10 {
        seq![(0x30 + n) as u8]
    } else {
        spec_dec_digits(n / 10) + seq![(0x30 + n % 10) as u8]
    }
}

/// Renders a port number as decimal ASCII digits.
pub fn u16_to_dec(n: u16) -> (r: Vec<u8>)
    ensures
        r@ == spec_dec_digits(n as int),
    decreases n,
{
    if n < 10 {
        let mut r: Vec<u8> = Vec::new();
        r.push(0x30 + n as u8);
        assert(r@ =~= spec_dec_digits(n as int));
        r
    } else {
        let mut r = u16_to_dec(n / 10);
        r.push(0x30 + (n % 10) as u8);
        assert(r@ =~= spec_dec_digits(n as int));
        r
    }
}

/// Scheme name in ASCII: "http" or "https".
pub open spec fn spec_scheme_bytes(s: UrlScheme) -> Seq<u8> {
    match s {
        UrlScheme::Http => seq![0x68u8, 0x74u8, 0x74u8, 0x70u8],
        UrlScheme::Https => seq![0x68u8, 0x74u8, 0x74u8, 0x70u8, 0x73u8],
    }
}

/// "://" in ASCII.
pub open spec fn spec_scheme_sep() -> Seq<u8> {
    seq![0x3Au8, 0x2Fu8, 0x2Fu8]
}

/// The authority part of a backend URL: `scheme://host:port`.
pub open spec fn spec_authority(t: TargetDescriptor) -> Seq<u8> {
    spec_scheme_bytes(t.scheme) + spec_scheme_sep() + t.host@ + seq![0x3Au8]
        + spec_dec_digits(t.port as int)
}

/// Builds `scheme://host:port` for the session's backend.
pub fn authority(t: &TargetDescriptor) -> (r: Vec<u8>)
    ensures
        r@ == spec_authority(*t),
{
    let mut out: Vec<u8> = Vec::new();
    out.push(0x68);
    out.push(0x74);
    out.push(0x74);
    out.push(0x70);
    match t.scheme {
        UrlScheme::Http => {},
        UrlScheme::Https => {
            out.push(0x73);
        },
    }
    out.push(0x3A);
    out.push(0x2F);
    out.push(0x2F);
    assert(out@ =~= spec_scheme_bytes(t.scheme) + spec_scheme_sep());
    push_all(&mut out, &t.host);
    out.push(0x3A);
    let digits = u16_to_dec(t.port);
    push_all(&mut out, &digits);
    proof {
        assert(out@ =~= spec_authority(*t));
    }
    out
}

} // verus!
