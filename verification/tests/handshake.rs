use cellardoor::handshake::compute_accept_token;
use cellardoor::handshake::validate_upgrade_request;
use cellardoor::handshake::Rejection;
use cellardoor::headers::Headers;

fn headers_of(pairs: &[(&str, &str)]) -> Headers {
    let mut h = Headers::new();
    for (name, value) in pairs {
        h.push(name.to_string(), value.to_string());
    }
    h
}

#[test]
fn accept_token_rfc_vector() {
    let token = compute_accept_token("dGhlIHNhbXBsZSBub25jZQ==");
    assert_eq!(token, "s3pPLMBiTxaQ9kYGzzhZRbK+xOo=");
}

#[test]
fn accept_token_deterministic() {
    let a = compute_accept_token("dGhlIHNhbXBsZSBub25jZQ==");
    let b = compute_accept_token("dGhlIHNhbXBsZSBub25jZQ==");
    assert_eq!(a, b);
}

#[test]
fn validate_missing_key() {
    let h = headers_of(&[("Upgrade", "websocket"), ("Sec-WebSocket-Version", "13")]);
    assert!(matches!(validate_upgrade_request(&h), Err(Rejection::MissingKey)));
}

#[test]
fn validate_no_headers_at_all() {
    let h = Headers::new();
    assert!(matches!(validate_upgrade_request(&h), Err(Rejection::MissingKey)));
}

#[test]
fn validate_wrong_version() {
    let h = headers_of(&[
        ("Sec-WebSocket-Key", "dGhlIHNhbXBsZSBub25jZQ=="),
        ("Sec-WebSocket-Version", "12"),
    ]);
    assert!(matches!(
        validate_upgrade_request(&h),
        Err(Rejection::UnsupportedVersion)
    ));
}

#[test]
fn validate_version_must_be_exact() {
    let h = headers_of(&[
        ("Sec-WebSocket-Key", "dGhlIHNhbXBsZSBub25jZQ=="),
        ("Sec-WebSocket-Version", " 13"),
    ]);
    assert!(matches!(
        validate_upgrade_request(&h),
        Err(Rejection::UnsupportedVersion)
    ));
}

#[test]
fn validate_success() {
    let h = headers_of(&[
        ("Sec-WebSocket-Key", "dGhlIHNhbXBsZSBub25jZQ=="),
        ("Sec-WebSocket-Version", "13"),
    ]);
    let key = validate_upgrade_request(&h).unwrap();
    assert_eq!(key, "dGhlIHNhbXBsZSBub25jZQ==");
}

#[test]
fn validate_success_without_version() {
    let h = headers_of(&[("Sec-WebSocket-Key", "k")]);
    assert_eq!(validate_upgrade_request(&h).unwrap(), "k");
}

#[test]
fn validate_header_names_fold_case() {
    let h = headers_of(&[("SEC-WEBSOCKET-KEY", "k"), ("sec-websocket-version", "13")]);
    assert_eq!(validate_upgrade_request(&h).unwrap(), "k");
}

#[test]
fn headers_first_entry_wins() {
    let h = headers_of(&[("X-A", "one"), ("x-a", "two")]);
    assert_eq!(h.get("X-A").unwrap(), "one");
    assert!(h.get("x-b").is_none());
    assert!(h.contains("X-a"));
}
