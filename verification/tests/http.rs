use codex_teams::form::form_get;
use codex_teams::http::{
    app_server_readyz, lowercase, parse_ws_host_port, read_http_request, readyz_request,
    redirect_team_ui, redirect_team_ui_with_params, write_http_response, write_redirect_response,
    HttpRequest, HttpRequestError, ReadAction,
};

fn read(bytes: &[u8], closed: bool) -> Option<Result<HttpRequest, HttpRequestError>> {
    match read_http_request(&bytes.to_vec(), closed) {
        ReadAction::ReadMore => None,
        ReadAction::Done(result) => Some(result),
    }
}

#[test]
fn a_request_without_body_is_read() {
    let request = read(b"GET /realtime?team=a%20b&x HTTP/1.1\r\nHost: h\r\n\r\n", false)
        .expect("whole")
        .expect("valid");
    assert_eq!(request.method, "GET");
    assert_eq!(request.path, "/realtime");
    assert_eq!(form_get(&request.query, "team"), Some("a b".to_string()));
    assert_eq!(request.body, "");
}

#[test]
fn a_body_is_waited_for() {
    let head = b"POST /message HTTP/1.1\r\ncontent-LENGTH: 6\r\n\r\n";
    let mut bytes = head.to_vec();
    assert!(read(&bytes, false).is_none());
    bytes.extend_from_slice(b"a=1");
    assert!(read(&bytes, false).is_none());
    bytes.extend_from_slice(b"&b=");
    let request = read(&bytes, false).expect("whole").expect("valid");
    assert_eq!(request.body, "a=1&b=");
    bytes.extend_from_slice(b"rest");
    let request = read(&bytes, false).expect("whole").expect("valid");
    assert_eq!(request.body, "a=1&b=");
}

#[test]
fn a_request_is_that_of_its_decoded_text() {
    let body = "goal=日本";
    let head = format!("POST /ünew?team=é HTTP/1.1\r\nContent-Length: {}\r\n\r\n", body.len());
    let request = read((head + body).as_bytes(), false).expect("whole").expect("valid");
    assert_eq!(request.path, "/ünew");
    assert_eq!(form_get(&request.query, "team"), Some("é".to_string()));
    assert_eq!(request.body, body);
}

#[test]
fn a_body_that_is_not_text_is_read_loosely() {
    let request = read(b"POST / HTTP/1.1\r\nContent-Length: 2\r\n\r\na\xff", false)
        .expect("whole")
        .expect("valid");
    assert_eq!(request.body, "a\u{fffd}");
}

#[test]
fn requests_that_end_early_are_refused() {
    assert!(read(b"GET / HT", false).is_none());
    assert!(matches!(read(b"GET / HT", true), Some(Err(HttpRequestError::Malformed))));
    assert!(matches!(read(b"", true), Some(Err(HttpRequestError::Malformed))));
    assert_eq!(HttpRequestError::Malformed.message(), "malformed HTTP request");
    assert_eq!(HttpRequestError::TooLarge.message(), "HTTP request too large");
    assert_eq!(HttpRequestError::Empty.message(), "empty HTTP request");
    let short = read(b"POST / HTTP/1.1\r\nContent-Length: 9\r\n\r\nab", true);
    assert_eq!(short.expect("whole").expect("valid").body, "ab");
}

#[test]
fn requests_that_are_too_large_are_refused() {
    let bytes = vec![b'a'; 2_000_000];
    assert!(matches!(read(&bytes, false), Some(Err(HttpRequestError::TooLarge))));
}

#[test]
fn responses_say_their_length() {
    assert_eq!(
        write_http_response("200 OK", "text/plain", "é"),
        "HTTP/1.1 200 OK\r\nContent-Type: text/plain\r\nContent-Length: 2\r\nConnection: close\r\n\r\né"
    );
}

#[test]
fn redirects_name_the_page() {
    let none = redirect_team_ui(&None);
    assert_eq!(none, write_redirect_response("/"));
    assert!(none.starts_with("HTTP/1.1 303 See Other\r\n"));
    assert_eq!(
        redirect_team_ui(&Some("a b".to_string())),
        "HTTP/1.1 303 See Other\r\nLocation: /?team=a+b\r\nContent-Type: text/plain\r\nContent-Length: 9\r\nConnection: close\r\n\r\nredirect\n"
    );
    assert!(redirect_team_ui_with_params(&vec![("team", "t"), ("translation", "ja")])
        .contains("/?team=t&translation=ja"));
}

#[test]
fn websocket_urls_are_taken_apart() {
    assert_eq!(parse_ws_host_port("ws://127.0.0.1:80/x"), Some(("127.0.0.1".to_string(), 80)));
    assert_eq!(parse_ws_host_port("ws://[::1]:9?q"), Some(("::1".to_string(), 9)));
    assert_eq!(parse_ws_host_port("ws://h"), None);
    assert_eq!(parse_ws_host_port("ws://:1"), None);
    assert_eq!(parse_ws_host_port("ws://h:65536"), None);
    assert_eq!(parse_ws_host_port("http://h:1"), None);
    assert_eq!(parse_ws_host_port("ws:///x"), None);
}

#[test]
fn readiness_is_asked_and_read() {
    assert_eq!(
        readyz_request("h", 7),
        "GET /readyz HTTP/1.1\r\nHost: h:7\r\nConnection: close\r\n\r\n"
    );
    assert!(app_server_readyz(&b"HTTP/1.1 200 OK\r\n".to_vec()));
    assert!(!app_server_readyz(&b"HTTP/1.1 503 No\r\n".to_vec()));
    assert!(!app_server_readyz(&b"HTTP/1.1 20".to_vec()));
}

#[test]
fn only_ascii_is_lowered() {
    assert_eq!(lowercase("Content-LENGTH É"), "content-length É");
}
