//! Main-tunnel establishment and the per-session tunnel choice.
//!
//! Each accepted local connection leads to one HTTP request against the
//! backend's upgrade endpoint, carrying upgrade-negotiation headers plus
//! routing headers that identify the local HTTP proxy, so the backend
//! can address secondary resources through it. After a successful
//! upgrade the surrounding shell copies bytes both ways, unmodified and
//! uninterpreted, until either side closes. Which tunnel a session runs
//! is decided once at session start from the target descriptor and never
//! re-evaluated.

use vstd::prelude::*;
use crate::bytes::push_all;
use crate::constants::HTTP_PORT;
use crate::http::{authority, headers_view, spec_authority, spec_dec_digits, u16_to_dec,
    HeaderModel, HttpHeader};
use crate::target::TargetDescriptor;

verus! {

/// The tunnel a session runs for its datagram-style traffic.
#[derive(Clone, Copy, PartialEq, Eq, Structural, Debug)]
pub enum TunnelChoice {
    /// A datagram tunnel bound to the backend's dedicated port.
    Datagram(u16),
    /// The HTTP-upgrade tunnel, as used by the main connection.
    HttpUpgrade,
}

/// Decides the session's tunnel, once, from the target descriptor: the
/// dedicated datagram port when the backend offers one, the
/// HTTP-upgrade tunnel otherwise.
pub fn select_tunnel(tunnel_port: Option<u16>) -> (r: TunnelChoice)
    ensures
        tunnel_port matches Some(p) ==> r == TunnelChoice::Datagram(p),
        tunnel_port is None ==> r == TunnelChoice::HttpUpgrade,
{
    match tunnel_port {
        Some(p) => TunnelChoice::Datagram(p),
        None => TunnelChoice::HttpUpgrade,
    }
}

/// "api/server/upgrade" in ASCII: the backend's upgrade endpoint.
pub open spec fn spec_upgrade_endpoint() -> Seq<u8> {
    seq![
        0x61u8, 0x70u8, 0x69u8, 0x2Fu8, 0x73u8, 0x65u8, 0x72u8, 0x76u8, 0x65u8, 0x72u8,
        0x2Fu8, 0x75u8, 0x70u8, 0x67u8, 0x72u8, 0x61u8, 0x64u8, 0x65u8,
    ]
}

/// Full URL of the backend's upgrade endpoint.
pub open spec fn spec_upgrade_url(t: TargetDescriptor) -> Seq<u8> {
    spec_authority(t) + seq![0x2Fu8] + spec_upgrade_endpoint()
}

/// "Connection: Upgrade".
pub open spec fn spec_header_connection() -> HeaderModel {
    HeaderModel {
        name: seq![0x43u8, 0x6Fu8, 0x6Eu8, 0x6Eu8, 0x65u8, 0x63u8, 0x74u8, 0x69u8, 0x6Fu8,
            0x6Eu8],
        value: seq![0x55u8, 0x70u8, 0x67u8, 0x72u8, 0x61u8, 0x64u8, 0x65u8],
    }
}

/// "Upgrade: blaze": the protocol token carried through the upgrade.
pub open spec fn spec_header_upgrade() -> HeaderModel {
    HeaderModel {
        name: seq![0x55u8, 0x70u8, 0x67u8, 0x72u8, 0x61u8, 0x64u8, 0x65u8],
        value: seq![0x62u8, 0x6Cu8, 0x61u8, 0x7Au8, 0x65u8],
    }
}

/// "User-Agent: PocketRelayClient/v0.1.0".
pub open spec fn spec_header_user_agent() -> HeaderModel {
    HeaderModel {
        name: seq![0x55u8, 0x73u8, 0x65u8, 0x72u8, 0x2Du8, 0x41u8, 0x67u8, 0x65u8, 0x6Eu8,
            0x74u8],
        value: seq![0x50u8, 0x6Fu8, 0x63u8, 0x6Bu8, 0x65u8, 0x74u8, 0x52u8, 0x65u8, 0x6Cu8,
            0x61u8, 0x79u8, 0x43u8, 0x6Cu8, 0x69u8, 0x65u8, 0x6Eu8, 0x74u8, 0x2Fu8, 0x76u8,
            0x30u8, 0x2Eu8, 0x31u8, 0x2Eu8, 0x30u8],
    }
}

/// "X-Pocket-Relay-Local-Http: true": tells the backend to reach HTTP
/// resources through the local proxy.
pub open spec fn spec_header_local_http() -> HeaderModel {
    HeaderModel {
        name: seq![0x58u8, 0x2Du8, 0x50u8, 0x6Fu8, 0x63u8, 0x6Bu8, 0x65u8, 0x74u8, 0x2Du8,
            0x52u8, 0x65u8, 0x6Cu8, 0x61u8, 0x79u8, 0x2Du8, 0x4Cu8, 0x6Fu8, 0x63u8, 0x61u8,
            0x6Cu8, 0x2Du8, 0x48u8, 0x74u8, 0x74u8, 0x70u8],
        value: seq![0x74u8, 0x72u8, 0x75u8, 0x65u8],
    }
}

/// "X-Pocket-Relay-Scheme: http": scheme of the local proxy endpoint.
pub open spec fn spec_header_scheme() -> HeaderModel {
    HeaderModel {
        name: seq![0x58u8, 0x2Du8, 0x50u8, 0x6Fu8, 0x63u8, 0x6Bu8, 0x65u8, 0x74u8, 0x2Du8,
            0x52u8, 0x65u8, 0x6Cu8, 0x61u8, 0x79u8, 0x2Du8, 0x53u8, 0x63u8, 0x68u8, 0x65u8,
            0x6Du8, 0x65u8],
        value: seq![0x68u8, 0x74u8, 0x74u8, 0x70u8],
    }
}

/// "X-Pocket-Relay-Port": port of the local proxy endpoint, in decimal.
pub open spec fn spec_header_port() -> HeaderModel {
    HeaderModel {
        name: seq![0x58u8, 0x2Du8, 0x50u8, 0x6Fu8, 0x63u8, 0x6Bu8, 0x65u8, 0x74u8, 0x2Du8,
            0x52u8, 0x65u8, 0x6Cu8, 0x61u8, 0x79u8, 0x2Du8, 0x50u8, 0x6Fu8, 0x72u8, 0x74u8],
        value: spec_dec_digits(HTTP_PORT as int),
    }
}

/// "X-Pocket-Relay-Host: 127.0.0.1": host of the local proxy endpoint.
pub open spec fn spec_header_host() -> HeaderModel {
    HeaderModel {
        name: seq![0x58u8, 0x2Du8, 0x50u8, 0x6Fu8, 0x63u8, 0x6Bu8, 0x65u8, 0x74u8, 0x2Du8,
            0x52u8, 0x65u8, 0x6Cu8, 0x61u8, 0x79u8, 0x2Du8, 0x48u8, 0x6Fu8, 0x73u8, 0x74u8],
        value: seq![0x31u8, 0x32u8, 0x37u8, 0x2Eu8, 0x30u8, 0x2Eu8, 0x30u8, 0x2Eu8, 0x31u8],
    }
}

/// The full header list of an upgrade request, in order: the upgrade
/// negotiation, the client identification, and the routing headers that
/// point the backend at the local HTTP proxy.
pub open spec fn spec_upgrade_headers() -> Seq<HeaderModel> {
    seq![
        spec_header_connection(),
        spec_header_upgrade(),
        spec_header_user_agent(),
        spec_header_local_http(),
        spec_header_scheme(),
        spec_header_port(),
        spec_header_host(),
    ]
}

/// One planned upgrade request: URL and headers for the shell to send.
#[derive(Debug)]
pub struct UpgradeRequest {
    pub url: Vec<u8>,
    pub headers: Vec<HttpHeader>,
}

/// Builds the upgrade request for one accepted local connection.
pub fn upgrade_request(t: &TargetDescriptor) -> (r: UpgradeRequest)
    ensures
        r.url@ == spec_upgrade_url(*t),
        headers_view(r.headers@) == spec_upgrade_headers(),
{
    let mut url = authority(t);
    url.push(0x2F);
    let mut endpoint: Vec<u8> = Vec::new();
    endpoint.push(0x61); // a
    endpoint.push(0x70); // p
    endpoint.push(0x69); // i
    endpoint.push(0x2F); // /
    endpoint.push(0x73); // s
    endpoint.push(0x65); // e
    endpoint.push(0x72); // r
    endpoint.push(0x76); // v
    endpoint.push(0x65); // e
    endpoint.push(0x72); // r
    endpoint.push(0x2F); // /
    endpoint.push(0x75); // u
    endpoint.push(0x70); // p
    endpoint.push(0x67); // g
    endpoint.push(0x72); // r
    endpoint.push(0x61); // a
    endpoint.push(0x64); // d
    endpoint.push(0x65); // e
    assert(endpoint@ =~= spec_upgrade_endpoint());
    push_all(&mut url, &endpoint);
    assert(url@ =~= spec_upgrade_url(*t));

    let mut headers: Vec<HttpHeader> = Vec::new();
    headers.push(header_connection());
    headers.push(header_upgrade());
    headers.push(header_user_agent());
    headers.push(header_local_http());
    headers.push(header_scheme());
    headers.push(header_port());
    headers.push(header_host());
    proof {
        assert(headers_view(headers@) =~= spec_upgrade_headers());
    }
    UpgradeRequest { url, headers }
}

/// Builds the "Connection: Upgrade" header.
fn header_connection() -> (r: HttpHeader)
    ensures
        r@ == spec_header_connection(),
{
    let mut name: Vec<u8> = Vec::new();
    name.push(0x43); // C
    name.push(0x6F); // o
    name.push(0x6E); // n
    name.push(0x6E); // n
    name.push(0x65); // e
    name.push(0x63); // c
    name.push(0x74); // t
    name.push(0x69); // i
    name.push(0x6F); // o
    name.push(0x6E); // n
    let mut value: Vec<u8> = Vec::new();
    value.push(0x55); // U
    value.push(0x70); // p
    value.push(0x67); // g
    value.push(0x72); // r
    value.push(0x61); // a
    value.push(0x64); // d
    value.push(0x65); // e
    assert(name@ =~= spec_header_connection().name);
    assert(value@ =~= spec_header_connection().value);
    HttpHeader { name, value }
}

/// Builds the "Upgrade: blaze" header.
fn header_upgrade() -> (r: HttpHeader)
    ensures
        r@ == spec_header_upgrade(),
{
    let mut name: Vec<u8> = Vec::new();
    name.push(0x55); // U
    name.push(0x70); // p
    name.push(0x67); // g
    name.push(0x72); // r
    name.push(0x61); // a
    name.push(0x64); // d
    name.push(0x65); // e
    let mut value: Vec<u8> = Vec::new();
    value.push(0x62); // b
    value.push(0x6C); // l
    value.push(0x61); // a
    value.push(0x7A); // z
    value.push(0x65); // e
    assert(name@ =~= spec_header_upgrade().name);
    assert(value@ =~= spec_header_upgrade().value);
    HttpHeader { name, value }
}

/// Builds the "User-Agent" header naming this client.
fn header_user_agent() -> (r: HttpHeader)
    ensures
        r@ == spec_header_user_agent(),
{
    let mut name: Vec<u8> = Vec::new();
    name.push(0x55); // U
    name.push(0x73); // s
    name.push(0x65); // e
    name.push(0x72); // r
    name.push(0x2D); // -
    name.push(0x41); // A
    name.push(0x67); // g
    name.push(0x65); // e
    name.push(0x6E); // n
    name.push(0x74); // t
    let mut value: Vec<u8> = Vec::new();
    value.push(0x50); // P
    value.push(0x6F); // o
    value.push(0x63); // c
    value.push(0x6B); // k
    value.push(0x65); // e
    value.push(0x74); // t
    value.push(0x52); // R
    value.push(0x65); // e
    value.push(0x6C); // l
    value.push(0x61); // a
    value.push(0x79); // y
    value.push(0x43); // C
    value.push(0x6C); // l
    value.push(0x69); // i
    value.push(0x65); // e
    value.push(0x6E); // n
    value.push(0x74); // t
    value.push(0x2F); // /
    value.push(0x76); // v
    value.push(0x30); // 0
    value.push(0x2E); // .
    value.push(0x31); // 1
    value.push(0x2E); // .
    value.push(0x30); // 0
    assert(name@ =~= spec_header_user_agent().name);
    assert(value@ =~= spec_header_user_agent().value);
    HttpHeader { name, value }
}

/// Builds the "X-Pocket-Relay-Local-Http: true" header.
fn header_local_http() -> (r: HttpHeader)
    ensures
        r@ == spec_header_local_http(),
{
    let mut name = header_prefix();
    name.push(0x4C); // L
    name.push(0x6F); // o
    name.push(0x63); // c
    name.push(0x61); // a
    name.push(0x6C); // l
    name.push(0x2D); // -
    name.push(0x48); // H
    name.push(0x74); // t
    name.push(0x74); // t
    name.push(0x70); // p
    let mut value: Vec<u8> = Vec::new();
    value.push(0x74); // t
    value.push(0x72); // r
    value.push(0x75); // u
    value.push(0x65); // e
    assert(name@ =~= spec_header_local_http().name);
    assert(value@ =~= spec_header_local_http().value);
    HttpHeader { name, value }
}

/// Builds the "X-Pocket-Relay-Scheme: http" header.
fn header_scheme() -> (r: HttpHeader)
    ensures
        r@ == spec_header_scheme(),
{
    let mut name = header_prefix();
    name.push(0x53); // S
    name.push(0x63); // c
    name.push(0x68); // h
    name.push(0x65); // e
    name.push(0x6D); // m
    name.push(0x65); // e
    let mut value: Vec<u8> = Vec::new();
    value.push(0x68); // h
    value.push(0x74); // t
    value.push(0x74); // t
    value.push(0x70); // p
    assert(name@ =~= spec_header_scheme().name);
    assert(value@ =~= spec_header_scheme().value);
    HttpHeader { name, value }
}

/// Builds the "X-Pocket-Relay-Port" header with the local proxy port.
fn header_port() -> (r: HttpHeader)
    ensures
        r@ == spec_header_port(),
{
    let mut name = header_prefix();
    name.push(0x50); // P
    name.push(0x6F); // o
    name.push(0x72); // r
    name.push(0x74); // t
    let value = u16_to_dec(HTTP_PORT);
    assert(name@ =~= spec_header_port().name);
    HttpHeader { name, value }
}

/// Builds the "X-Pocket-Relay-Host: 127.0.0.1" header.
fn header_host() -> (r: HttpHeader)
    ensures
        r@ == spec_header_host(),
{
    let mut name = header_prefix();
    name.push(0x48); // H
    name.push(0x6F); // o
    name.push(0x73); // s
    name.push(0x74); // t
    let mut value: Vec<u8> = Vec::new();
    value.push(0x31); // 1
    value.push(0x32); // 2
    value.push(0x37); // 7
    value.push(0x2E); // .
    value.push(0x30); // 0
    value.push(0x2E); // .
    value.push(0x30); // 0
    value.push(0x2E); // .
    value.push(0x31); // 1
    assert(name@ =~= spec_header_host().name);
    assert(value@ =~= spec_header_host().value);
    HttpHeader { name, value }
}

/// Builds the shared "X-Pocket-Relay-" name prefix.
fn header_prefix() -> (r: Vec<u8>)
    ensures
        r@ == seq![0x58u8, 0x2Du8, 0x50u8, 0x6Fu8, 0x63u8, 0x6Bu8, 0x65u8, 0x74u8, 0x2Du8,
            0x52u8, 0x65u8, 0x6Cu8, 0x61u8, 0x79u8, 0x2Du8],
{
    let mut r: Vec<u8> = Vec::new();
    r.push(0x58); // X
    r.push(0x2D); // -
    r.push(0x50); // P
    r.push(0x6F); // o
    r.push(0x63); // c
    r.push(0x6B); // k
    r.push(0x65); // e
    r.push(0x74); // t
    r.push(0x2D); // -
    r.push(0x52); // R
    r.push(0x65); // e
    r.push(0x6C); // l
    r.push(0x61); // a
    r.push(0x79); // y
    r.push(0x2D); // -
    assert(r@ =~= seq![0x58u8, 0x2Du8, 0x50u8, 0x6Fu8, 0x63u8, 0x6Bu8, 0x65u8, 0x74u8, 0x2Du8,
        0x52u8, 0x65u8, 0x6Cu8, 0x61u8, 0x79u8, 0x2Du8]);
    r
}

} // verus!
