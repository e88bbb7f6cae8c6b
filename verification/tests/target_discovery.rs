use pocket_relay_plugin::target::{
    min_server_version, normalize_connection_url, server_ident, validate_server_details,
    LookupError, Version,
};

#[test]
fn bare_host_gains_scheme_and_trailing_slash() {
    let url = normalize_connection_url(&b"example.com".to_vec());
    assert_eq!(url, b"http://example.com/".to_vec());
}

#[test]
fn explicit_http_scheme_is_kept() {
    let url = normalize_connection_url(&b"http://example.com".to_vec());
    assert_eq!(url, b"http://example.com/".to_vec());
}

#[test]
fn explicit_https_scheme_is_kept() {
    let url = normalize_connection_url(&b"https://example.com".to_vec());
    assert_eq!(url, b"https://example.com/".to_vec());
}

#[test]
fn input_with_trailing_slash_is_unchanged() {
    let url = normalize_connection_url(&b"http://example.com/".to_vec());
    assert_eq!(url, b"http://example.com/".to_vec());
}

#[test]
fn host_with_port_is_prefixed() {
    let url = normalize_connection_url(&b"192.168.1.5:8080".to_vec());
    assert_eq!(url, b"http://192.168.1.5:8080/".to_vec());
}

#[test]
fn good_ident_and_version_are_accepted() {
    let ident = Some(server_ident());
    let r = validate_server_details(&ident, Version { major: 1, minor: 0, patch: 0 });
    assert!(r.is_ok());
}

#[test]
fn minimum_version_itself_is_accepted() {
    let ident = Some(server_ident());
    let r = validate_server_details(&ident, min_server_version());
    assert!(r.is_ok());
}

#[test]
fn missing_ident_is_not_a_relay_server() {
    let r = validate_server_details(&None, Version { major: 1, minor: 0, patch: 0 });
    assert_eq!(r, Err(LookupError::NotPocketRelay));
}

#[test]
fn foreign_ident_is_not_a_relay_server() {
    let ident = Some(b"SOME_OTHER_SERVER".to_vec());
    let r = validate_server_details(&ident, Version { major: 1, minor: 0, patch: 0 });
    assert_eq!(r, Err(LookupError::NotPocketRelay));
}

#[test]
fn outdated_version_is_rejected_with_both_versions() {
    let ident = Some(server_ident());
    let old = Version { major: 0, minor: 4, patch: 9 };
    let r = validate_server_details(&ident, old);
    assert_eq!(r, Err(LookupError::ServerOutdated(old, min_server_version())));
}

#[test]
fn version_order_is_major_then_minor_then_patch() {
    let a = Version { major: 1, minor: 2, patch: 3 };
    assert!(Version { major: 0, minor: 9, patch: 9 }.lt(&a));
    assert!(Version { major: 1, minor: 1, patch: 9 }.lt(&a));
    assert!(Version { major: 1, minor: 2, patch: 2 }.lt(&a));
    assert!(!a.lt(&a));
    assert!(!Version { major: 1, minor: 2, patch: 4 }.lt(&a));
    assert!(!Version { major: 2, minor: 0, patch: 0 }.lt(&a));
}
