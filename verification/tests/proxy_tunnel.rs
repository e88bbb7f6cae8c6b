use pocket_relay_plugin::http::HttpHeader;
use pocket_relay_plugin::proxy::{
    plan_forward, proxy_outcome, proxy_target_url, ProxyResponse, INTERNAL_SERVER_ERROR,
};
use pocket_relay_plugin::target::{TargetDescriptor, UrlScheme, Version};
use pocket_relay_plugin::tunnel::{select_tunnel, upgrade_request, TunnelChoice};

fn target(scheme: UrlScheme, host: &str, port: u16) -> TargetDescriptor {
    TargetDescriptor {
        scheme,
        host: host.as_bytes().to_vec(),
        port,
        version: Version { major: 1, minor: 0, patch: 0 },
        tunnel_port: None,
        association_token: None,
    }
}

fn header(name: &str, value: &str) -> HttpHeader {
    HttpHeader { name: name.as_bytes().to_vec(), value: value.as_bytes().to_vec() }
}

#[test]
fn request_path_is_forwarded_to_the_backend_url() {
    let t = target(UrlScheme::Http, "backend.example", 8080);
    let url = proxy_target_url(&t, &b"/x".to_vec());
    assert_eq!(url, b"http://backend.example:8080/x".to_vec());
}

#[test]
fn https_scheme_and_query_survive() {
    let t = target(UrlScheme::Https, "backend.example", 443);
    let url = proxy_target_url(&t, &b"/a/b?q=1".to_vec());
    assert_eq!(url, b"https://backend.example:443/a/b?q=1".to_vec());
}

#[test]
fn forwarded_headers_are_identical() {
    let t = target(UrlScheme::Http, "backend.example", 8080);
    let headers = vec![header("Accept", "application/json"), header("Cookie", "k=v")];
    let plan = plan_forward(&t, &b"/x".to_vec(), headers);
    assert_eq!(plan.url, b"http://backend.example:8080/x".to_vec());
    assert_eq!(plan.headers.len(), 2);
    assert_eq!(plan.headers[0].name, b"Accept".to_vec());
    assert_eq!(plan.headers[0].value, b"application/json".to_vec());
    assert_eq!(plan.headers[1].name, b"Cookie".to_vec());
    assert_eq!(plan.headers[1].value, b"k=v".to_vec());
}

#[test]
fn backend_reply_is_reflected_byte_for_byte() {
    let reply = ProxyResponse {
        status: 203,
        headers: vec![header("X-Thing", "yes")],
        body: vec![1, 2, 3],
    };
    let out = proxy_outcome(Some(reply));
    assert_eq!(out.status, 203);
    assert_eq!(out.headers.len(), 1);
    assert_eq!(out.headers[0].name, b"X-Thing".to_vec());
    assert_eq!(out.headers[0].value, b"yes".to_vec());
    assert_eq!(out.body, vec![1, 2, 3]);
}

#[test]
fn unreachable_backend_yields_server_error_not_a_drop() {
    let out = proxy_outcome(None);
    assert_eq!(out.status, INTERNAL_SERVER_ERROR);
    assert!(out.headers.is_empty());
    assert!(out.body.is_empty());
}

#[test]
fn dedicated_port_selects_the_datagram_tunnel() {
    assert_eq!(select_tunnel(Some(7777)), TunnelChoice::Datagram(7777));
}

#[test]
fn missing_port_falls_back_to_the_upgrade_tunnel() {
    assert_eq!(select_tunnel(None), TunnelChoice::HttpUpgrade);
}

#[test]
fn upgrade_request_targets_the_upgrade_endpoint() {
    let t = target(UrlScheme::Http, "backend.example", 8080);
    let req = upgrade_request(&t);
    assert_eq!(req.url, b"http://backend.example:8080/api/server/upgrade".to_vec());
}

#[test]
fn upgrade_request_carries_negotiation_and_routing_headers() {
    let t = target(UrlScheme::Http, "backend.example", 8080);
    let req = upgrade_request(&t);
    let pairs: Vec<(Vec<u8>, Vec<u8>)> = req
        .headers
        .into_iter()
        .map(|h| (h.name, h.value))
        .collect();
    assert_eq!(
        pairs,
        vec![
            (b"Connection".to_vec(), b"Upgrade".to_vec()),
            (b"Upgrade".to_vec(), b"blaze".to_vec()),
            (b"User-Agent".to_vec(), b"PocketRelayClient/v0.1.0".to_vec()),
            (b"X-Pocket-Relay-Local-Http".to_vec(), b"true".to_vec()),
            (b"X-Pocket-Relay-Scheme".to_vec(), b"http".to_vec()),
            (b"X-Pocket-Relay-Port".to_vec(), b"42131".to_vec()),
            (b"X-Pocket-Relay-Host".to_vec(), b"127.0.0.1".to_vec()),
        ]
    );
}
