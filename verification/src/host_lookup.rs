//! Pure strategy behind the host-process name-lookup redirection: given
//! a hostname and whether a session is active, decide the override
//! address. The host-side hook that installs this decision is outside
//! the library; it only feeds the name in and applies the answer.

use vstd::prelude::*;
use crate::constants::LOOPBACK_IP;

verus! {

/// "gosredirector.ea.com" in ASCII: the discovery hostname whose
/// lookups are redirected to the local proxy.
pub open spec fn spec_redirect_hostname() -> Seq<u8> {
    seq![
        0x67u8, 0x6Fu8, 0x73u8, 0x72u8, 0x65u8, 0x64u8, 0x69u8, 0x72u8, 0x65u8, 0x63u8,
        0x74u8, 0x6Fu8, 0x72u8, 0x2Eu8, 0x65u8, 0x61u8, 0x2Eu8, 0x63u8, 0x6Fu8, 0x6Du8,
    ]
}

/// The discovery hostname whose lookups are redirected, as bytes.
pub fn redirect_hostname() -> (r: Vec<u8>)
    ensures
        r@ == spec_redirect_hostname(),
{
    let mut r: Vec<u8> = Vec::new();
    r.push(0x67); // g
    r.push(0x6F); // o
    r.push(0x73); // s
    r.push(0x72); // r
    r.push(0x65); // e
    r.push(0x64); // d
    r.push(0x69); // i
    r.push(0x72); // r
    r.push(0x65); // e
    r.push(0x63); // c
    r.push(0x74); // t
    r.push(0x6F); // o
    r.push(0x72); // r
    r.push(0x2E); // .
    r.push(0x65); // e
    r.push(0x61); // a
    r.push(0x2E); // .
    r.push(0x63); // c
    r.push(0x6F); // o
    r.push(0x6D); // m
    assert(r@ =~= spec_redirect_hostname());
    r
}

/// Decides a name lookup: the loopback address is answered exactly when
/// the queried name is the discovery hostname and a session is active;
/// every other lookup is left to the real resolver.
pub fn lookup_override(hostname: &Vec<u8>, session_active: bool) -> (r: Option<u32>)
    ensures
        session_active && hostname@ == spec_redirect_hostname() ==> r == Some(LOOPBACK_IP),
        !(session_active && hostname@ == spec_redirect_hostname()) ==> r is None,
{
    if !session_active {
        return None;
    }
    let expected = redirect_hostname();
    if crate::bytes::bytes_eq(hostname, &expected) {
        Some(LOOPBACK_IP)
    } else {
        None
    }
}

} // verus!
