use servo_ui::unity_smoke::{smoke_response_body, UnitySmokeProtocolHandler, SMOKE_CONTENT_TYPE};

#[test]
fn handler_is_fetchable_and_secure() {
    let handler = UnitySmokeProtocolHandler::default();
    assert!(handler.is_fetchable());
    assert!(handler.is_secure());
}

#[test]
fn response_is_503_smoke_stub() {
    let handler = UnitySmokeProtocolHandler {};
    let response = handler.load("unity", "/app", None);
    assert_eq!(response.status_code, 503);
    assert_eq!(response.status_text, b"smoke-stub".to_vec());
    assert_eq!(response.content_type, "application/json");
    assert_eq!(SMOKE_CONTENT_TYPE, "application/json");
}

#[test]
fn body_without_query() {
    let body = smoke_response_body("unity", "/app/index.html", None);
    assert_eq!(
        String::from_utf8(body).unwrap(),
        r#"{"ok":false,"error":"unity_smoke_handler","scheme":"unity","path":"/app/index.html","query":null}"#
    );
}

#[test]
fn body_with_query() {
    let handler = UnitySmokeProtocolHandler {};
    let response = handler.load("unity", "/x", Some("a=1&b=2"));
    assert_eq!(
        String::from_utf8(response.body).unwrap(),
        r#"{"ok":false,"error":"unity_smoke_handler","scheme":"unity","path":"/x","query":"a=1&b=2"}"#
    );
}

#[test]
fn quotes_in_query_are_escaped() {
    let body = smoke_response_body("unity", "/", Some("q=\"hi\""));
    assert_eq!(
        String::from_utf8(body).unwrap(),
        r#"{"ok":false,"error":"unity_smoke_handler","scheme":"unity","path":"/","query":"q=\"hi\""}"#
    );
}

#[test]
fn empty_query_is_an_empty_string() {
    let body = smoke_response_body("unity", "", Some(""));
    assert_eq!(
        String::from_utf8(body).unwrap(),
        r#"{"ok":false,"error":"unity_smoke_handler","scheme":"unity","path":"","query":""}"#
    );
}

#[test]
fn non_ascii_query_is_kept() {
    let body = smoke_response_body("unity", "/é", Some("ü=\""));
    assert_eq!(
        String::from_utf8(body).unwrap(),
        "{\"ok\":false,\"error\":\"unity_smoke_handler\",\"scheme\":\"unity\",\"path\":\"/é\",\"query\":\"ü=\\\"\"}"
    );
}

#[test]
fn backslashes_are_escaped() {
    let body = smoke_response_body("unity", "/a\\b", Some("a\\q"));
    assert_eq!(
        String::from_utf8(body).unwrap(),
        r#"{"ok":false,"error":"unity_smoke_handler","scheme":"unity","path":"/a\\b","query":"a\\q"}"#
    );
}

#[test]
fn control_bytes_are_escaped() {
    let body = smoke_response_body("unity", "/\n", Some("\t\u{1f}\u{0}"));
    assert_eq!(
        String::from_utf8(body).unwrap(),
        r#"{"ok":false,"error":"unity_smoke_handler","scheme":"unity","path":"/\u000a","query":"\u0009\u001f\u0000"}"#
    );
}

#[test]
fn quotes_in_path_and_scheme_are_escaped() {
    let body = smoke_response_body("u\"x", "/\"", None);
    assert_eq!(
        String::from_utf8(body).unwrap(),
        r#"{"ok":false,"error":"unity_smoke_handler","scheme":"u\"x","path":"/\"","query":null}"#
    );
}
