use vstd::prelude::*;

use crate::config::UpstreamAddress;
use crate::har::{headers_view, Header, HttpVersion, RequestHead, ResponseHead};
use crate::text::same_text;

verus! {

/// A response whose body is a short text.
pub struct PlainResponse {
    pub status: u16,
    pub body: String,
}

/// How the proxy handles a request.
pub enum Route {
    /// A CONNECT to `authority`: answer 200, then relay bytes both ways.
    Tunnel { authority: String },
    /// A CONNECT without an authority: answer 400.
    RejectConnect,
    /// Anything else: forward to the upstream origin and capture.
    Forward,
}

impl Route {
    /// Only forwarded transactions are captured; a tunnel's bytes are
    /// opaque.
    pub fn is_captured(&self) -> (r: bool)
        ensures
            r == (self is Forward),
    {
        match self {
            Route::Forward => true,
            _ => false,
        }
    }
}

pub open spec fn connect_method() -> Seq<char> {
    seq!['C', 'O', 'N', 'N', 'E', 'C', 'T']
}

/// Decides how a request is handled from its method and the authority of
/// its target, where it has one.
pub fn route(method: &str, authority: Option<String>) -> (r: Route)
    ensures
        method@ != connect_method() ==> r is Forward,
        method@ == connect_method() && authority is None ==> r is RejectConnect,
        method@ == connect_method() && authority is Some ==> r is Tunnel && r->authority@
            == authority->0@,
{
    proof {
        reveal_strlit("CONNECT");
        assert("CONNECT"@ =~= connect_method());
    }
    if same_text(method, "CONNECT") {
        match authority {
            Some(a) => Route::Tunnel { authority: a },
            None => Route::RejectConnect,
        }
    } else {
        Route::Forward
    }
}

pub open spec fn tunnel_refused_text() -> Seq<char> {
    seq![
        'C', 'O', 'N', 'N', 'E', 'C', 'T', ' ', 'm', 'u', 's', 't', ' ', 'b', 'e', ' ', 't', 'o', ' ',
        'a', ' ', 's', 'o', 'c', 'k', 'e', 't', ' ', 'a', 'd', 'd', 'r', 'e', 's', 's',
    ]
}

/// The answer to a CONNECT that opens a tunnel: 200 with an empty body.
pub fn tunnel_established() -> (r: PlainResponse)
    ensures
        r.status == 200,
        r.body@ == Seq::<char>::empty(),
{
    PlainResponse { status: 200, body: String::new() }
}

/// The answer to a CONNECT without an authority.
pub fn tunnel_refused() -> (r: PlainResponse)
    ensures
        r.status == 400,
        r.body@ == tunnel_refused_text(),
{
    proof {
        reveal_strlit("CONNECT must be to a socket address");
    }
    let r = PlainResponse {
        status: 400,
        body: String::from_str("CONNECT must be to a socket address"),
    };
    assert(r.body@ =~= tunnel_refused_text());
    r
}

/// The upstream URL of a request: the incoming path and query laid over
/// the upstream origin.
pub open spec fn upstream_url_of(base: UpstreamAddress, path: Seq<char>, query: Option<Seq<char>>) -> Seq<
    char,
> {
    base.origin_spec() + path + match query {
        Some(q) => seq!['?'] + q,
        None => Seq::empty(),
    }
}

pub fn upstream_url(base: &UpstreamAddress, path: &str, query: Option<&str>) -> (r: String)
    ensures
        r@ == upstream_url_of(
            *base,
            path@,
            match query {
                Some(q) => Some(q@),
                None => None,
            },
        ),
{
    let mut r = base.origin();
    r.append(path);
    if let Some(q) = query {
        proof {
            reveal_strlit("?");
        }
        r.append("?");
        r.append(q);
    }
    assert(r@ =~= upstream_url_of(
        *base,
        path@,
        match query {
            Some(q) => Some(q@),
            None => None,
        },
    ));
    r
}

/// Copies header fields one for one.
pub fn copy_headers(hs: &Vec<Header>) -> (r: Vec<Header>)
    ensures
        headers_view(r@) == headers_view(hs@),
{
    let mut r: Vec<Header> = Vec::new();
    let mut i: usize = 0;
    while i < hs.len()
        invariant
            i <= hs@.len(),
            r@.len() == i,
            forall|j: int| 0 <= j < i ==> #[trigger] r@[j]@ == hs@[j]@,
        decreases hs.len() - i,
    {
        let value = hs[i].value.clone();
        assert(value@ =~= hs@[i as int].value@);
        r.push(Header { name: hs[i].name.clone(), value });
        i = i + 1;
    }
    assert(headers_view(r@) =~= headers_view(hs@));
    r
}

/// The request sent upstream for a forwarded one.
pub struct UpstreamRequest {
    pub method: String,
    pub url: String,
    pub version: HttpVersion,
    pub headers: Vec<Header>,
}

/// Builds the upstream request: method, version and header fields as
/// received, the URL laid over the upstream origin.
pub fn forward_request(
    base: &UpstreamAddress,
    head: &RequestHead,
    path: &str,
    query: Option<&str>,
) -> (r: UpstreamRequest)
    ensures
        r.method@ == head.method@,
        r.version == head.version,
        headers_view(r.headers@) == headers_view(head.headers@),
        r.url@ == upstream_url_of(
            *base,
            path@,
            match query {
                Some(q) => Some(q@),
                None => None,
            },
        ),
{
    UpstreamRequest {
        method: head.method.clone(),
        url: upstream_url(base, path, query),
        version: head.version,
        headers: copy_headers(&head.headers),
    }
}

impl ResponseHead {
    /// A copy of the head, for the capture side while the original goes
    /// downstream.
    pub fn duplicate(&self) -> (r: ResponseHead)
        ensures
            r.status == self.status,
            r.version == self.version,
            headers_view(r.headers@) == headers_view(self.headers@),
    {
        ResponseHead { status: self.status, version: self.version, headers: copy_headers(&self.headers) }
    }

    /// The head recorded when the upstream gave no response: status 0 and
    /// no header field.
    pub fn unanswered(version: HttpVersion) -> (r: ResponseHead)
        ensures
            r.status == 0,
            r.version == version,
            r.headers@.len() == 0,
    {
        ResponseHead { status: 0, version, headers: Vec::new() }
    }
}

/// The kinds of failure the proxy tells apart.
#[derive(Clone, Copy, Debug, PartialEq, Eq, Structural)]
pub enum ErrorKind {
    BadConfig,
    ListenerFailed,
    TlsHandshakeFailed,
    DownstreamIo,
    UpstreamConnectFailed,
    UpstreamIo,
    UpstreamTimeout,
    MalformedCapture,
    StoreUnavailable,
    StoreFull,
    Internal,
}

/// The status answered for a failure, if any. A failure after the
/// response head went out only ends the stream; start-up, TLS and store
/// failures are never answered.
pub open spec fn error_status_of(kind: ErrorKind, head_sent: bool) -> Option<u16> {
    if head_sent {
        None
    } else {
        match kind {
            ErrorKind::DownstreamIo => Some(502),
            ErrorKind::UpstreamConnectFailed => Some(502),
            ErrorKind::UpstreamIo => Some(502),
            ErrorKind::UpstreamTimeout => Some(504),
            ErrorKind::MalformedCapture => Some(400),
            ErrorKind::Internal => Some(500),
            _ => None,
        }
    }
}

pub fn error_status(kind: ErrorKind, head_sent: bool) -> (r: Option<u16>)
    ensures
        r == error_status_of(kind, head_sent),
{
    if head_sent {
        None
    } else {
        match kind {
            ErrorKind::DownstreamIo => Some(502),
            ErrorKind::UpstreamConnectFailed => Some(502),
            ErrorKind::UpstreamIo => Some(502),
            ErrorKind::UpstreamTimeout => Some(504),
            ErrorKind::MalformedCapture => Some(400),
            ErrorKind::Internal => Some(500),
            _ => None,
        }
    }
}

} // verus!
