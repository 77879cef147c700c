use http_tester::headers::{flatten_headers, parse_header_line, parse_headers};
use http_tester::method::Method;
use http_tester::request::{attach_body, build_request, RequestError};

fn pairs(v: &[(&str, &str)]) -> Vec<(String, String)> {
    v.iter().map(|(a, b)| (a.to_string(), b.to_string())).collect()
}

#[test]
fn unsupported_methods_are_rejected() {
    for m in ["HEAD", "get", "", "OPTIONS", "Post", " GET"] {
        let r = build_request(m, "https://example.test/".to_string(), "A: 1", Some("x".to_string()));
        assert_eq!(r, Err(RequestError::UnsupportedMethod));
    }
    assert_eq!(RequestError::UnsupportedMethod.message(), "Unsupported HTTP method");
}

#[test]
fn supported_methods_are_accepted() {
    let all = [
        ("GET", Method::Get),
        ("POST", Method::Post),
        ("PUT", Method::Put),
        ("PATCH", Method::Patch),
        ("DELETE", Method::Delete),
    ];
    for (name, m) in all {
        let r = build_request(name, "u".to_string(), "", None).unwrap();
        assert_eq!(r.method, m);
        assert_eq!(m.as_str(), name);
        assert_eq!(Method::parse(name), Some(m));
    }
}

#[test]
fn malformed_header_lines_are_dropped() {
    assert_eq!(parse_headers("A: 1\nbadline\nB: 2"), pairs(&[("A", "1"), ("B", "2")]));
}

#[test]
fn header_splits_at_first_colon() {
    assert_eq!(
        parse_headers("Host: example.test:8080"),
        pairs(&[("Host", "example.test:8080")])
    );
    assert_eq!(parse_header_line("  X-Empty:   "), Some(("X-Empty".to_string(), String::new())));
    assert_eq!(parse_header_line(":v"), Some((String::new(), "v".to_string())));
    assert_eq!(parse_header_line("   "), None);
    assert_eq!(parse_header_line("no separator"), None);
}

#[test]
fn duplicate_header_names_are_kept_in_order() {
    assert_eq!(
        parse_headers("Accept: a\nAccept: b\nAccept: a"),
        pairs(&[("Accept", "a"), ("Accept", "b"), ("Accept", "a")])
    );
}

#[test]
fn blank_lines_and_crlf_are_handled() {
    assert_eq!(parse_headers(""), pairs(&[]));
    assert_eq!(parse_headers("\n\n   \n\t\n"), pairs(&[]));
    assert_eq!(
        parse_headers("A: 1\r\n\r\n  B :  2  \r\n"),
        pairs(&[("A", "1"), ("B", "2")])
    );
}

#[test]
fn unicode_whitespace_is_trimmed() {
    assert_eq!(
        parse_headers("\u{3000}X:\u{a0}y z\u{2003}"),
        pairs(&[("X", "y z")])
    );
}

#[test]
fn whitespace_body_is_treated_as_absent() {
    assert_eq!(attach_body(Some("   \n  ".to_string())), None);
    assert_eq!(attach_body(None), None);
    let with_blank = build_request("POST", "u".to_string(), "", Some("   \n  ".to_string()));
    let without = build_request("POST", "u".to_string(), "", None);
    assert_eq!(with_blank, without);
    assert_eq!(with_blank.unwrap().body, None);
}

#[test]
fn body_is_attached_verbatim() {
    let body = "  {\"a\": 1}\n".to_string();
    let r = build_request("PUT", "u".to_string(), "", Some(body.clone())).unwrap();
    assert_eq!(r.body, Some(body));
}

#[test]
fn request_carries_url_and_headers() {
    let r = build_request(
        "GET",
        "not a url at all".to_string(),
        "Content-Type: application/json\nbad\nX: 1",
        None,
    )
    .unwrap();
    assert_eq!(r.url, "not a url at all");
    assert_eq!(r.headers, pairs(&[("Content-Type", "application/json"), ("X", "1")]));
    assert_eq!(r.body, None);
}

#[test]
fn header_block_round_trip() {
    let block = "content-type: application/json\nx-empty: \nx-time: 12:30:00\n";
    let parsed = parse_headers(block);
    assert_eq!(
        parsed,
        pairs(&[("content-type", "application/json"), ("x-empty", ""), ("x-time", "12:30:00")])
    );
    assert_eq!(flatten_headers(&parsed), block);
    assert_eq!(flatten_headers(&parse_headers(&flatten_headers(&parsed))), block);
}

#[test]
fn flatten_renders_each_pair_on_its_own_line() {
    assert_eq!(flatten_headers(&pairs(&[])), "");
    assert_eq!(flatten_headers(&pairs(&[("A", "1"), ("B", "x y")])), "A: 1\nB: x y\n");
}
