//! Stateless per-request model of the local HTTP reverse proxy.
//!
//! For each inbound request the proxy forwards path and headers
//! unmodified to the session's backend and reflects the reply back
//! byte-for-byte; when the backend cannot be reached the caller gets a
//! server-error response rather than a dropped connection.

use vstd::prelude::*;
use crate::bytes::push_all;
use crate::http::{authority, spec_authority, HttpHeader};
use crate::target::TargetDescriptor;

verus! {

/// Status code reflected to the caller when the backend is unreachable.
pub const INTERNAL_SERVER_ERROR: u16 = 500;

/// The URL one request is forwarded to: the backend authority followed
/// by the request's own path and query (which carries its leading
/// slash).
pub open spec fn spec_target_url(t: TargetDescriptor, path: Seq<u8>) -> Seq<u8> {
    spec_authority(t) + path
}

/// Builds the backend URL for forwarding `path`.
pub fn proxy_target_url(t: &TargetDescriptor, path: &Vec<u8>) -> (r: Vec<u8>)
    ensures
        r@ == spec_target_url(*t, path@),
{
    let mut out = authority(t);
    push_all(&mut out, path);
    out
}

/// What the proxy sends upstream for one inbound request.
#[derive(Debug)]
pub struct ForwardRequest {
    pub url: Vec<u8>,
    pub headers: Vec<HttpHeader>,
}

/// Plans the upstream request: the rebuilt backend URL, and the
/// caller's headers passed through unmodified.
pub fn plan_forward(t: &TargetDescriptor, path: &Vec<u8>, headers: Vec<HttpHeader>) -> (r:
    ForwardRequest)
    ensures
        r.url@ == spec_target_url(*t, path@),
        r.headers == headers,
{
    ForwardRequest { url: proxy_target_url(t, path), headers }
}

/// One HTTP reply, as reflected between backend and caller.
#[derive(Debug)]
pub struct ProxyResponse {
    pub status: u16,
    pub headers: Vec<HttpHeader>,
    pub body: Vec<u8>,
}

/// What the caller receives: the backend's reply when there is one —
/// status, headers and body unchanged — and otherwise a bare
/// server-error response. The caller always receives a response; an
/// unreachable backend never silently drops the connection.
pub fn proxy_outcome(upstream: Option<ProxyResponse>) -> (r: ProxyResponse)
    ensures
        upstream matches Some(u) ==> r == u,
        upstream is None ==> {
            &&& r.status == INTERNAL_SERVER_ERROR
            &&& r.headers@.len() == 0
            &&& r.body@.len() == 0
        },
{
    match upstream {
        Some(u) => u,
        None => ProxyResponse {
            status: INTERNAL_SERVER_ERROR,
            headers: Vec::new(),
            body: Vec::new(),
        },
    }
}

} // verus!
