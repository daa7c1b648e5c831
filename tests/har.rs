use park::har::{
    body_text, display_version, mime_type, status_text, CapturedBody, HarError, HarHeader,
    Header, HttpVersion, ReplayRequest, RequestHead, ResponseHead,
};
use park::Har;

fn header(name: &str, value: &[u8]) -> Header {
    Header { name: name.to_string(), value: value.to_vec() }
}

fn body(bytes: &[u8]) -> CapturedBody {
    CapturedBody { bytes: bytes.to_vec(), complete: true }
}

fn echo_capture() -> Har {
    let req = RequestHead {
        method: "GET".to_string(),
        uri: "http://up/echo".to_string(),
        version: HttpVersion::Http11,
        headers: vec![header("host", b"up"), header("accept", b"*/*")],
    };
    let resp = ResponseHead {
        status: 200,
        version: HttpVersion::Http11,
        headers: vec![header("content-type", b"text/plain")],
    };
    Har::from_transaction(req, body(b""), resp, body(b"pong"))
}

fn post_capture() -> Har {
    let req = RequestHead {
        method: "POST".to_string(),
        uri: "/x".to_string(),
        version: HttpVersion::Http11,
        headers: vec![header("Content-Type", b"text/plain"), header("x-trace", b"abc")],
    };
    let resp = ResponseHead { status: 201, version: HttpVersion::Http11, headers: vec![] };
    Har::from_transaction(req, body(b"hello"), resp, body(b""))
}

#[test]
fn get_echo_is_captured() {
    let h = echo_capture();
    assert_eq!(h.creator.name, "park");
    assert_eq!(h.creator.version, "0.1.0");
    assert_eq!(h.entries.len(), 1);
    let e = &h.entries[0];
    assert_eq!(e.request.method, "GET");
    assert_eq!(e.request.url, "http://up/echo");
    assert_eq!(e.request.http_version, "HTTP/1.1");
    assert_eq!(e.request.headers.len(), 2);
    assert_eq!(e.request.headers[0].name, "host");
    assert_eq!(e.request.headers[0].value, "up");
    assert_eq!(e.request.headers[1].name, "accept");
    assert_eq!(e.request.headers[1].value, "*/*");
    let post = e.request.post_data.as_ref().unwrap();
    assert_eq!(post.mime_type, "application/octet-stream");
    assert_eq!(post.text.as_deref(), Some(""));
    assert_eq!(e.response.status, 200);
    assert_eq!(e.response.status_text, "OK");
    assert_eq!(e.response.content.text.as_deref(), Some("pong"));
    assert_eq!(e.response.content.mime_type.as_deref(), Some("text/plain"));
    assert_eq!(e.response.content.size, 0);
    assert_eq!(e.response.body_size, 4);
    assert_eq!(e.timings.send, 0);
    assert_eq!(e.timings.wait, 0);
    assert_eq!(e.timings.receive, 0);
    assert_eq!(e.time, 0);
}

#[test]
fn post_body_is_captured() {
    let h = post_capture();
    let e = &h.entries[0];
    let post = e.request.post_data.as_ref().unwrap();
    assert_eq!(post.text.as_deref(), Some("hello"));
    assert_eq!(post.mime_type, "text/plain");
    assert_eq!(e.request.body_size, 5);
    assert_eq!(e.request.headers[0].name, "Content-Type");
    assert_eq!(e.response.status, 201);
    assert_eq!(e.response.status_text, "Created");
    assert_eq!(e.response.content.text.as_deref(), Some(""));
    assert_eq!(e.response.content.mime_type.as_deref(), Some("application/octet-stream"));
}

#[test]
fn unanswered_transaction_records_status_zero() {
    let req = RequestHead {
        method: "GET".to_string(),
        uri: "http://down/".to_string(),
        version: HttpVersion::Http11,
        headers: vec![],
    };
    let resp = ResponseHead::unanswered(HttpVersion::Http11);
    let h = Har::from_transaction(req, body(b""), resp, CapturedBody { bytes: vec![], complete: false });
    let e = &h.entries[0];
    assert_eq!(e.response.status, 0);
    assert_eq!(e.response.status_text, "");
    assert_eq!(e.response.body_size, -1);
}

#[test]
fn lossy_body_has_unknown_size() {
    let req = RequestHead {
        method: "PUT".to_string(),
        uri: "/y".to_string(),
        version: HttpVersion::H2,
        headers: vec![],
    };
    let resp = ResponseHead { status: 204, version: HttpVersion::H2, headers: vec![] };
    let partial = CapturedBody { bytes: b"tail".to_vec(), complete: false };
    let h = Har::from_transaction(req, partial, resp, body(b""));
    let e = &h.entries[0];
    assert_eq!(e.request.body_size, -1);
    assert_eq!(e.request.post_data.as_ref().unwrap().text.as_deref(), Some("tail"));
    assert_eq!(e.request.http_version, "HTTP/2.0");
    assert_eq!(e.response.body_size, 0);
}

#[test]
fn mime_type_rules() {
    assert_eq!(mime_type(&vec![]), "application/octet-stream");
    assert_eq!(mime_type(&vec![header("CONTENT-TYPE", b"application/json")]), "application/json");
    assert_eq!(
        mime_type(&vec![header("content-type", b"text/html"), header("content-type", b"text/css")]),
        "text/html"
    );
    assert_eq!(
        mime_type(&vec![header("content-type", b"caf\xc3\xa9")]),
        "application/octet-stream"
    );
    assert_eq!(mime_type(&vec![header("content-typ", b"text/x")]), "application/octet-stream");
    assert_eq!(mime_type(&vec![header("content-type", b"a\tb")]), "a\tb");
}

#[test]
fn body_text_decodes_utf8_only() {
    assert_eq!(body_text(b"hello".to_vec()), "hello");
    assert_eq!(body_text("h\u{e9}llo".as_bytes().to_vec()), "h\u{e9}llo");
    assert_eq!(body_text(vec![0xff, 0xfe, 0x41]), "");
    assert_eq!(body_text(vec![]), "");
}

#[test]
fn non_utf8_header_value_is_recorded_empty() {
    let req = RequestHead {
        method: "GET".to_string(),
        uri: "/".to_string(),
        version: HttpVersion::Http10,
        headers: vec![header("x-bin", &[0xff, 0x41])],
    };
    let resp = ResponseHead { status: 200, version: HttpVersion::Http10, headers: vec![] };
    let h = Har::from_transaction(req, body(b""), resp, body(b""));
    assert_eq!(h.entries[0].request.headers[0].value, "");
    assert_eq!(h.entries[0].request.http_version, "HTTP/1.0");
}

#[test]
fn status_text_uses_canonical_reason() {
    assert_eq!(status_text(200), "OK");
    assert_eq!(status_text(404), "Not Found");
    assert_eq!(status_text(502), "Bad Gateway");
    assert_eq!(status_text(0), "");
    assert_eq!(status_text(99), "");
    assert_eq!(status_text(999), "");
    assert_eq!(status_text(1000), "");
}

#[test]
fn versions_are_written_as_in_har() {
    assert_eq!(display_version(HttpVersion::Http09), "HTTP/0.9");
    assert_eq!(display_version(HttpVersion::Http10), "HTTP/1.0");
    assert_eq!(display_version(HttpVersion::Http11), "HTTP/1.1");
    assert_eq!(display_version(HttpVersion::H2), "HTTP/2.0");
    assert_eq!(display_version(HttpVersion::H3), "HTTP/3.0");
}

#[test]
fn captured_get_decodes_back() {
    let q = echo_capture().to_request().ok().unwrap();
    assert_eq!(q.method, "GET");
    assert_eq!(q.url, "http://up/echo");
    assert_eq!(q.headers.len(), 2);
    assert_eq!(q.headers[0].name, "host");
    assert_eq!(q.headers[0].value, b"up".to_vec());
    assert_eq!(q.headers[1].value, b"*/*".to_vec());
    assert!(q.body.is_empty());
}

#[test]
fn captured_post_decodes_back() {
    let q = post_capture().to_request().ok().unwrap();
    assert_eq!(q.method, "POST");
    assert_eq!(q.url, "/x");
    assert_eq!(q.body, b"hello".to_vec());
    assert_eq!(q.headers[0].name, "Content-Type");
    assert_eq!(q.headers[0].value, b"text/plain".to_vec());
    assert_eq!(q.headers[1].name, "x-trace");
}

#[test]
fn log_without_one_entry_is_malformed() {
    let mut h = echo_capture();
    h.entries.clear();
    assert!(matches!(h.to_request(), Err(HarError::MalformedCapture)));
    let mut h = echo_capture();
    let second = post_capture().entries.pop().unwrap();
    h.entries.push(second);
    assert!(matches!(h.replay_request(), Err(HarError::MalformedCapture)));
}

#[test]
fn invalid_method_is_malformed() {
    let mut h = echo_capture();
    h.entries[0].request.method = "GE T".to_string();
    assert!(h.replay_request().is_ok());
    let mut h = echo_capture();
    h.entries[0].request.method = "GE T".to_string();
    assert!(matches!(h.to_request(), Err(HarError::MalformedCapture)));
    let mut h = echo_capture();
    h.entries[0].request.method = "".to_string();
    assert!(matches!(h.to_request(), Err(HarError::MalformedCapture)));
}

#[test]
fn invalid_url_is_malformed() {
    let mut h = echo_capture();
    h.entries[0].request.url = "http://exa mple.com/".to_string();
    assert!(matches!(h.to_request(), Err(HarError::MalformedCapture)));
}

#[test]
fn invalid_header_is_malformed() {
    let mut h = echo_capture();
    h.entries[0].request.headers.push(HarHeader { name: "bad name".to_string(), value: "v".to_string() });
    assert!(matches!(h.to_request(), Err(HarError::MalformedCapture)));
    let mut h = echo_capture();
    h.entries[0].request.headers.push(HarHeader { name: "x-ok".to_string(), value: "a\nb".to_string() });
    assert!(matches!(h.to_request(), Err(HarError::MalformedCapture)));
}

#[test]
fn missing_post_data_gives_empty_body() {
    let mut h = post_capture();
    h.entries[0].request.post_data = None;
    let q = h.to_request().ok().unwrap();
    assert!(q.body.is_empty());
    let mut h = post_capture();
    h.entries[0].request.post_data.as_mut().unwrap().text = None;
    assert!(h.to_request().ok().unwrap().body.is_empty());
}

#[test]
fn accept_keeps_only_valid_requests() {
    let q = ReplayRequest { method: "GET".to_string(), url: "/".to_string(), headers: vec![], body: vec![1] };
    let q = q.accept(true, true, true).ok().unwrap();
    assert_eq!(q.body, vec![1]);
    assert!(matches!(q.accept(true, false, true), Err(HarError::MalformedCapture)));
}
