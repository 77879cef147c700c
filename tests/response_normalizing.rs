use http_tester::request::{build_request, RequestError};
use http_tester::response::{
    body_from_parse, decode_body, finish_response, header_value_text, normalize_response,
    render_headers, status_phrase, status_text, ResponseBody,
};

fn raw(v: &[(&str, &[u8])]) -> Vec<(String, Vec<u8>)> {
    v.iter().map(|(a, b)| (a.to_string(), b.to_vec())).collect()
}

#[test]
fn json_body_is_parsed() {
    let expected: serde_json::Value = serde_json::from_str("{\"a\": 1}").unwrap();
    assert_eq!(decode_body("{\"a\":1}".to_string()), ResponseBody::Json(expected));
    let s: serde_json::Value = serde_json::from_str("\"hi\"").unwrap();
    assert_eq!(decode_body("\"hi\"".to_string()), ResponseBody::Json(s));
    assert_eq!(
        decode_body(" [1, null, true] ".to_string()),
        ResponseBody::Json(serde_json::from_str("[1,null,true]").unwrap())
    );
}

#[test]
fn plain_text_body_is_kept() {
    let b = decode_body("plain text".to_string());
    assert_eq!(b, ResponseBody::Text("plain text".to_string()));
    match b {
        ResponseBody::Text(t) => assert_eq!(t, "plain text"),
        ResponseBody::Json(_) => panic!("text was read as JSON"),
    }
    assert_eq!(decode_body(String::new()), ResponseBody::Text(String::new()));
    assert_eq!(
        decode_body("{\"a\":1} trailing".to_string()),
        ResponseBody::Text("{\"a\":1} trailing".to_string())
    );
}

#[test]
fn body_from_parse_follows_the_outcome() {
    let bad = serde_json::from_str::<serde_json::Value>("nope");
    assert_eq!(
        body_from_parse("nope".to_string(), bad),
        ResponseBody::Text("nope".to_string())
    );
    let v: serde_json::Value = serde_json::from_str("3").unwrap();
    assert_eq!(body_from_parse("3".to_string(), Ok(v.clone())), ResponseBody::Json(v));
}

#[test]
fn end_to_end_scenario() {
    let req = build_request("GET", "https://example.test/ok".to_string(), "", Some(String::new()))
        .unwrap();
    assert!(req.headers.is_empty());
    assert_eq!(req.body, None);
    let res = normalize_response(
        200,
        &raw(&[("Content-Type", b"application/json")]),
        "{\"id\":3}".to_string(),
    );
    assert_eq!(res.status, 200);
    assert_eq!(res.status_text, "OK");
    assert_eq!(res.headers, "Content-Type: application/json\n");
    let expected: serde_json::Value = serde_json::from_str("{\"id\": 3}").unwrap();
    assert_eq!(res.body, ResponseBody::Json(expected));
}

#[test]
fn status_phrases() {
    assert_eq!(status_phrase(200), "OK");
    assert_eq!(status_phrase(404), "Not Found");
    assert_eq!(status_phrase(599), "Unknown");
    assert_eq!(status_phrase(42), "Unknown");
    assert_eq!(status_text(None), "Unknown");
    assert_eq!(status_text(Some("Teapot".to_string())), "Teapot");
}

#[test]
fn header_values_that_are_not_text_render_empty() {
    assert_eq!(header_value_text(&b"application/json".to_vec()), "application/json");
    assert_eq!(header_value_text(&b"a\tb".to_vec()), "a\tb");
    assert_eq!(header_value_text(&vec![0x41, 0xff]), "");
    assert_eq!(header_value_text(&vec![0x41, 0x7f]), "");
    assert_eq!(
        render_headers(&raw(&[("x-bin", &[0xff, 0x41]), ("x-ok", b"yes")])),
        "x-bin: \nx-ok: yes\n"
    );
    assert_eq!(render_headers(&raw(&[])), "");
}

#[test]
fn unreadable_body_fails_the_request() {
    let r = finish_response(200, &raw(&[("a", b"b")]), Err("connection reset".to_string()));
    assert_eq!(r, Err(RequestError::BodyRead("connection reset".to_string())));
    assert_eq!(r.unwrap_err().message(), "connection reset");
    let ok = finish_response(404, &raw(&[]), Ok("missing".to_string())).unwrap();
    assert_eq!(ok.status, 404);
    assert_eq!(ok.status_text, "Not Found");
    assert_eq!(ok.headers, "");
    assert_eq!(ok.body, ResponseBody::Text("missing".to_string()));
}

#[test]
fn transport_error_message_is_passed_through() {
    let e = RequestError::Transport("dns error".to_string());
    assert_eq!(e.message(), "dns error");
}
