use park::api::{
    api_route, hello, latest_response, malformed_har, not_found, replay_decision, ApiRoute,
};
use park::config::parse_address;
use park::har::{CapturedBody, Header, HttpVersion, RequestHead, ResponseHead};
use park::proxy::{
    copy_headers, error_status, forward_request, route, tunnel_established, tunnel_refused,
    upstream_url, ErrorKind, Route,
};
use park::Har;

fn header(name: &str, value: &[u8]) -> Header {
    Header { name: name.to_string(), value: value.to_vec() }
}

fn echo_capture() -> Har {
    let req = RequestHead {
        method: "GET".to_string(),
        uri: "http://up/echo".to_string(),
        version: HttpVersion::Http11,
        headers: vec![],
    };
    let resp = ResponseHead { status: 200, version: HttpVersion::Http11, headers: vec![] };
    Har::from_transaction(
        req,
        CapturedBody { bytes: vec![], complete: true },
        resp,
        CapturedBody { bytes: b"pong".to_vec(), complete: true },
    )
}

#[test]
fn connect_with_authority_opens_tunnel() {
    let r = route("CONNECT", Some("example.test:443".to_string()));
    match &r {
        Route::Tunnel { authority } => assert_eq!(authority, "example.test:443"),
        _ => panic!("expected a tunnel"),
    }
    assert!(!r.is_captured());
    let answer = tunnel_established();
    assert_eq!(answer.status, 200);
    assert_eq!(answer.body, "");
}

#[test]
fn connect_without_authority_is_refused() {
    let r = route("CONNECT", None);
    assert!(matches!(r, Route::RejectConnect));
    assert!(!r.is_captured());
    let answer = tunnel_refused();
    assert_eq!(answer.status, 400);
    assert_eq!(answer.body, "CONNECT must be to a socket address");
}

#[test]
fn other_methods_are_forwarded_and_captured() {
    for m in ["GET", "POST", "connect", "OPTIONS"] {
        let r = route(m, Some("up:80".to_string()));
        assert!(matches!(r, Route::Forward));
        assert!(r.is_captured());
    }
}

#[test]
fn upstream_url_overlays_path_and_query() {
    let base = parse_address("http://up:8080/ignored?x=1").ok().unwrap();
    assert_eq!(upstream_url(&base, "/echo", Some("a=1&b=2")), "http://up:8080/echo?a=1&b=2");
    assert_eq!(upstream_url(&base, "/", None), "http://up:8080/");
    let tls = parse_address("https://secure.test").ok().unwrap();
    assert_eq!(upstream_url(&tls, "/x", Some("")), "https://secure.test/x?");
}

#[test]
fn forwarded_request_keeps_method_version_and_headers() {
    let base = parse_address("http://up").ok().unwrap();
    let head = RequestHead {
        method: "PATCH".to_string(),
        uri: "http://proxy.local/items/1?full=yes".to_string(),
        version: HttpVersion::H2,
        headers: vec![header("X-Custom-Case", b"Value"), header("x-bin", &[0xff, 0x00, 0x7f])],
    };
    let up = forward_request(&base, &head, "/items/1", Some("full=yes"));
    assert_eq!(up.method, "PATCH");
    assert_eq!(up.version, HttpVersion::H2);
    assert_eq!(up.url, "http://up/items/1?full=yes");
    assert_eq!(up.headers.len(), 2);
    assert_eq!(up.headers[0].name, "X-Custom-Case");
    assert_eq!(up.headers[0].value, b"Value".to_vec());
    assert_eq!(up.headers[1].value, vec![0xff, 0x00, 0x7f]);
}

#[test]
fn response_head_is_duplicated_exactly() {
    let head = ResponseHead {
        status: 418,
        version: HttpVersion::Http11,
        headers: vec![header("content-type", b"text/plain"), header("Set-Cookie", b"a=b")],
    };
    let copy = head.duplicate();
    assert_eq!(copy.status, 418);
    assert_eq!(copy.version, HttpVersion::Http11);
    assert_eq!(copy.headers.len(), 2);
    assert_eq!(copy.headers[1].name, "Set-Cookie");
    assert_eq!(copy.headers[1].value, b"a=b".to_vec());
    assert!(copy_headers(&vec![]).is_empty());
}

#[test]
fn unreachable_upstream_answers_bad_gateway() {
    assert_eq!(error_status(ErrorKind::UpstreamConnectFailed, false), Some(502));
    assert_eq!(error_status(ErrorKind::UpstreamIo, false), Some(502));
    assert_eq!(error_status(ErrorKind::DownstreamIo, false), Some(502));
    let capture = ResponseHead::unanswered(HttpVersion::Http11);
    assert_eq!(capture.status, 0);
    assert!(capture.headers.is_empty());
}

#[test]
fn error_statuses() {
    assert_eq!(error_status(ErrorKind::UpstreamTimeout, false), Some(504));
    assert_eq!(error_status(ErrorKind::MalformedCapture, false), Some(400));
    assert_eq!(error_status(ErrorKind::Internal, false), Some(500));
    assert_eq!(error_status(ErrorKind::StoreFull, false), None);
    assert_eq!(error_status(ErrorKind::StoreUnavailable, false), None);
    assert_eq!(error_status(ErrorKind::TlsHandshakeFailed, false), None);
    assert_eq!(error_status(ErrorKind::BadConfig, false), None);
    assert_eq!(error_status(ErrorKind::ListenerFailed, false), None);
    assert_eq!(error_status(ErrorKind::UpstreamIo, true), None);
    assert_eq!(error_status(ErrorKind::UpstreamTimeout, true), None);
}

#[test]
fn control_api_routes() {
    assert_eq!(api_route("GET", "/"), ApiRoute::Hello);
    assert_eq!(api_route("GET", "/requests/latest"), ApiRoute::Latest);
    assert_eq!(api_route("POST", "/requests"), ApiRoute::Replay);
    assert_eq!(api_route("GET", "/requests"), ApiRoute::NotFound);
    assert_eq!(api_route("POST", "/"), ApiRoute::NotFound);
    assert_eq!(api_route("get", "/"), ApiRoute::NotFound);
    assert_eq!(api_route("GET", "/requests/latest/"), ApiRoute::NotFound);
}

#[test]
fn control_api_fixed_answers() {
    let h = hello();
    assert_eq!(h.status, 200);
    assert_eq!(h.body, "Hello, World!");
    let n = not_found();
    assert_eq!(n.status, 404);
    assert_eq!(n.body, "Not found");
    let m = malformed_har();
    assert_eq!(m.status, 400);
    assert_eq!(m.body, "Malformed har file");
}

#[test]
fn latest_answer() {
    let r = latest_response(None);
    assert_eq!(r.status, 404);
    assert_eq!(r.body, "Not found");
    let r = latest_response(Some("{\"log\":{}}".to_string()));
    assert_eq!(r.status, 200);
    assert_eq!(r.body, "{\"log\":{}}");
}

#[test]
fn posted_capture_is_replayed() {
    let q = replay_decision(Some(echo_capture())).ok().unwrap();
    assert_eq!(q.method, "GET");
    assert_eq!(q.url, "http://up/echo");
    assert!(q.body.is_empty());
}

#[test]
fn posted_garbage_is_refused() {
    let r = replay_decision(None).err().unwrap();
    assert_eq!(r.status, 400);
    assert_eq!(r.body, "Malformed har file");
    let mut h = echo_capture();
    h.entries.clear();
    let r = replay_decision(Some(h)).err().unwrap();
    assert_eq!(r.status, 400);
}
