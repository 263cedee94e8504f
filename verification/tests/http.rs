use cellardoor::http::parse_header_line;
use cellardoor::http::parse_request_head;
use cellardoor::http::parse_request_line;
use cellardoor::router::Method;

#[test]
fn request_line_get_with_query() {
    let (method, path) = parse_request_line("GET /a.html?b=1 HTTP/1.1").unwrap();
    assert!(matches!(method, Method::Get));
    assert_eq!(path, "/a.html");
}

#[test]
fn request_line_other_method() {
    let (method, path) = parse_request_line("POST /form HTTP/1.1").unwrap();
    assert!(matches!(method, Method::Other));
    assert_eq!(path, "/form");
}

#[test]
fn request_line_needs_space_and_target() {
    assert!(parse_request_line("GETX").is_none());
    assert!(parse_request_line("GET  HTTP/1.1").is_none());
}

#[test]
fn request_line_without_version_still_parses() {
    let (method, path) = parse_request_line("GET /bare").unwrap();
    assert!(matches!(method, Method::Get));
    assert_eq!(path, "/bare");
}

#[test]
fn header_line_splits_at_first_colon() {
    let h = parse_header_line("Host: example.org:8080").unwrap();
    assert_eq!(h.name, "Host");
    assert_eq!(h.value, "example.org:8080");
}

#[test]
fn header_line_trims_white_space() {
    let h = parse_header_line("  X-Pad \t:  v  ").unwrap();
    assert_eq!(h.name, "X-Pad");
    assert_eq!(h.value, "v");
    let empty = parse_header_line("A:").unwrap();
    assert_eq!(empty.name, "A");
    assert_eq!(empty.value, "");
}

#[test]
fn header_line_needs_a_colon() {
    assert!(parse_header_line("no colon here").is_none());
    assert!(parse_header_line("").is_none());
}

#[test]
fn whole_head_parses_into_a_request() {
    let head = b"GET /x.html HTTP/1.1\r\nHost: h\r\nUpgrade: websocket\r\n\r\n".to_vec();
    let req = parse_request_head(&head).unwrap();
    assert!(matches!(req.method, Method::Get));
    assert_eq!(req.path, "/x.html");
    assert_eq!(req.headers.entries.len(), 2);
    assert_eq!(req.headers.get("host").unwrap(), "h");
    assert_eq!(req.headers.get("UPGRADE").unwrap(), "websocket");
}

#[test]
fn malformed_head_is_refused() {
    assert!(parse_request_head(&Vec::new()).is_none());
    assert!(parse_request_head(&b"nonsense\r\n\r\n".to_vec()).is_none());
}
