use http_message::request::{HttpRequest, Method, Resource, Version};

#[test]
fn test_method_into() {
    let m: Method = "GET".into();
    let n: Method = "POST".into();
    let u: Method = "Put".into();
    assert_eq!(m, Method::Get);
    assert_eq!(n, Method::Post);
    assert_eq!(u, Method::Unintialized);
}

#[test]
fn test_version_into() {
    let m: Version = "HTTP/1.1".into();
    assert_eq!(m, Version::V1_1);
}

#[test]
fn test_http_request_from() {
    let raw = "GET /index.html HTTP/1.1\r\nHost: example.com\r\n\r\nBody content";
    let req: HttpRequest = raw.to_string().into();

    assert_eq!(req.method, Method::Get);
    assert_eq!(req.version, Version::V1_1);
    assert_eq!(req.resource, Resource::Path("/index.html".to_string()));
    assert_eq!(req.headers.get("Host").unwrap(), "example.com");
    assert_eq!(req.body, "Body content");
}

#[test]
fn method_tokens_are_case_sensitive() {
    assert_eq!(Method::from("get"), Method::Unintialized);
    assert_eq!(Method::from(""), Method::Unintialized);
    assert_eq!(Method::from("DELETE"), Method::Unintialized);
    assert_eq!(Method::from("GET "), Method::Unintialized);
}

#[test]
fn other_versions_are_unknown() {
    assert_eq!(Version::from("HTTP/2.0"), Version::Unintialized);
    assert_eq!(Version::from("HTTP/1.0"), Version::Unintialized);
    assert_eq!(Version::from("http/1.1"), Version::Unintialized);
    assert_eq!(Version::from(""), Version::Unintialized);
}

#[test]
fn empty_input_keeps_initial_values() {
    let req = HttpRequest::parse("");
    assert_eq!(req.method, Method::Unintialized);
    assert_eq!(req.version, Version::V1_1);
    assert_eq!(req.resource, Resource::Path(String::new()));
    assert_eq!(req.headers.len(), 0);
    assert_eq!(req.body, "");
}

#[test]
fn post_request_with_headers() {
    let raw = "POST /api/orders HTTP/1.1\r\nContent-Type: application/json\r\nAccept:  */*  \r\n\r\nid=1";
    let req = HttpRequest::parse(raw);
    assert_eq!(req.method, Method::Post);
    assert_eq!(req.version, Version::V1_1);
    assert_eq!(req.resource, Resource::Path("/api/orders".to_string()));
    assert_eq!(req.headers.len(), 2);
    assert_eq!(req.headers.get("Content-Type").unwrap(), "application/json");
    assert_eq!(req.headers.get("Accept").unwrap(), "*/*");
    assert_eq!(req.body, "id=1");
}

#[test]
fn body_line_with_colon_reads_as_header() {
    let req = HttpRequest::parse("POST / HTTP/1.1\r\n\r\n{\"id\":1}");
    assert_eq!(req.body, "");
    assert_eq!(req.headers.get("{\"id\"").unwrap(), "1}");
}

#[test]
fn header_value_keeps_later_colons() {
    let req = HttpRequest::parse("GET / HTTP/1.1\r\nHost: localhost:3000\r\n");
    assert_eq!(req.headers.get("Host").unwrap(), "localhost:3000");
}

#[test]
fn repeated_header_keeps_last_value() {
    let req = HttpRequest::parse("GET / HTTP/1.1\r\nX-A: one\r\nX-B: two\r\nX-A: three\r\n");
    assert_eq!(req.headers.len(), 2);
    assert_eq!(req.headers.get("X-A").unwrap(), "three");
    assert_eq!(req.headers.get("X-B").unwrap(), "two");
    assert_eq!(req.headers.name_at(0), "X-A");
}

#[test]
fn header_without_value_is_empty() {
    let req = HttpRequest::parse("GET / HTTP/1.1\r\nX-Empty:\r\n");
    assert_eq!(req.headers.get("X-Empty").unwrap(), "");
    assert!(req.headers.get("Missing").is_none());
}

#[test]
fn last_body_line_wins() {
    let req = HttpRequest::parse("GET / HTTP/1.1\r\n\r\nfirst\r\nsecond");
    assert_eq!(req.body, "second");
}

#[test]
fn short_request_line_leaves_missing_words_empty() {
    let req = HttpRequest::parse("GET HTTP\r\n");
    assert_eq!(req.method, Method::Get);
    assert_eq!(req.resource, Resource::Path("HTTP".to_string()));
    assert_eq!(req.version, Version::Unintialized);
}

#[test]
fn bare_line_feeds_split_lines() {
    let req = HttpRequest::parse("GET /a HTTP/2.0\nHost: h\n\nbody\n");
    assert_eq!(req.method, Method::Get);
    assert_eq!(req.version, Version::Unintialized);
    assert_eq!(req.resource, Resource::Path("/a".to_string()));
    assert_eq!(req.headers.get("Host").unwrap(), "h");
    assert_eq!(req.body, "body");
}
