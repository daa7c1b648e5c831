use vstd::prelude::*;
use vstd::utf8::{decode_utf8, decode_utf8_encode_utf8, encode_utf8, valid_utf8};
use vstd::string::StrSliceExecFns;

use crate::text::opt_text;

verus! {

/// One header field as carried on the wire: its name, and its value's
/// bytes.
pub struct Header {
    pub name: String,
    pub value: Vec<u8>,
}

impl View for Header {
    type V = (Seq<char>, Seq<u8>);

    open spec fn view(&self) -> Self::V {
        (self.name@, self.value@)
    }
}

/// Header fields in order, as names and value bytes.
pub open spec fn headers_view(hs: Seq<Header>) -> Seq<(Seq<char>, Seq<u8>)> {
    hs.map_values(|h: Header| h@)
}

/// One header field as HAR records it, with a textual value.
pub struct HarHeader {
    pub name: String,
    pub value: String,
}

impl View for HarHeader {
    type V = (Seq<char>, Seq<char>);

    open spec fn view(&self) -> Self::V {
        (self.name@, self.value@)
    }
}

/// HAR header fields in order, as names and value texts.
pub open spec fn har_headers_view(hs: Seq<HarHeader>) -> Seq<(Seq<char>, Seq<char>)> {
    hs.map_values(|h: HarHeader| h@)
}

/// Wire header fields as HAR records them: each value decoded as UTF-8.
pub open spec fn headers_as_text(hs: Seq<(Seq<char>, Seq<u8>)>) -> Seq<(Seq<char>, Seq<char>)> {
    hs.map_values(|h: (Seq<char>, Seq<u8>)| (h.0, body_text_of(h.1)))
}

/// HAR header fields as sent on the wire: each value encoded as UTF-8.
pub open spec fn headers_as_bytes(hs: Seq<(Seq<char>, Seq<char>)>) -> Seq<(Seq<char>, Seq<u8>)> {
    hs.map_values(|h: (Seq<char>, Seq<char>)| (h.0, encode_utf8(h.1)))
}

/// The HTTP version of a message.
#[derive(Clone, Copy, Debug, PartialEq, Eq, Structural)]
pub enum HttpVersion {
    Http09,
    Http10,
    Http11,
    H2,
    H3,
}

pub open spec fn version_text(v: HttpVersion) -> Seq<char> {
    match v {
        HttpVersion::Http09 => seq!['H', 'T', 'T', 'P', '/', '0', '.', '9'],
        HttpVersion::Http10 => seq!['H', 'T', 'T', 'P', '/', '1', '.', '0'],
        HttpVersion::Http11 => seq!['H', 'T', 'T', 'P', '/', '1', '.', '1'],
        HttpVersion::H2 => seq!['H', 'T', 'T', 'P', '/', '2', '.', '0'],
        HttpVersion::H3 => seq!['H', 'T', 'T', 'P', '/', '3', '.', '0'],
    }
}

/// The textual form of a version, as HAR records it (`HTTP/1.1`).
pub fn display_version(v: HttpVersion) -> (r: String)
    ensures
        r@ == version_text(v),
{
    proof {
        reveal_strlit("HTTP/0.9");
        reveal_strlit("HTTP/1.0");
        reveal_strlit("HTTP/1.1");
        reveal_strlit("HTTP/2.0");
        reveal_strlit("HTTP/3.0");
    }
    let r = match v {
        HttpVersion::Http09 => String::from_str("HTTP/0.9"),
        HttpVersion::Http10 => String::from_str("HTTP/1.0"),
        HttpVersion::Http11 => String::from_str("HTTP/1.1"),
        HttpVersion::H2 => String::from_str("HTTP/2.0"),
        HttpVersion::H3 => String::from_str("HTTP/3.0"),
    };
    assert(r@ =~= version_text(v));
    r
}

pub open spec fn ascii_lower(c: char) -> char {
    if 'A' <= c && c <= 'Z' {
        (((c as u8) + 32) as u8) as char
    } else {
        c
    }
}

/// Equal but for the case of ASCII letters.
pub open spec fn same_ignoring_ascii_case(a: Seq<char>, b: Seq<char>) -> bool {
    a.len() == b.len() && forall|i: int| 0 <= i < a.len() ==> ascii_lower(a[i]) == ascii_lower(b[i])
}

pub open spec fn content_type_name() -> Seq<char> {
    seq!['c', 'o', 'n', 't', 'e', 'n', 't', '-', 't', 'y', 'p', 'e']
}

pub open spec fn octet_stream() -> Seq<char> {
    seq![
        'a', 'p', 'p', 'l', 'i', 'c', 'a', 't', 'i', 'o', 'n', '/', 'o', 'c', 't', 'e', 't', '-',
        's', 't', 'r', 'e', 'a', 'm',
    ]
}

/// The value of the first `Content-Type` field, if any.
pub open spec fn first_content_type(hs: Seq<(Seq<char>, Seq<u8>)>) -> Option<Seq<u8>>
    decreases hs.len(),
{
    if hs.len() == 0 {
        None
    } else if same_ignoring_ascii_case(hs[0].0, content_type_name()) {
        Some(hs[0].1)
    } else {
        first_content_type(hs.drop_first())
    }
}

/// Every byte is visible ASCII or a tab.
pub open spec fn visible_ascii(s: Seq<u8>) -> bool {
    forall|i: int| 0 <= i < s.len() ==> ((32 <= #[trigger] s[i] && s[i] <= 126) || s[i] == 9)
}

/// The media type of a message: its first `Content-Type` where that is
/// visible ASCII, `application/octet-stream` otherwise.
pub open spec fn mime_type_of(hs: Seq<(Seq<char>, Seq<u8>)>) -> Seq<char> {
    match first_content_type(hs) {
        Some(v) => if visible_ascii(v) {
            body_text_of(v)
        } else {
            octet_stream()
        },
        None => octet_stream(),
    }
}

fn is_content_type(name: &str) -> (r: bool)
    ensures
        r == same_ignoring_ascii_case(name@, content_type_name()),
{
    proof {
        reveal_strlit("content-type");
    }
    let expected = "content-type";
    let n = name.unicode_len();
    let m = expected.unicode_len();
    assert(expected@ =~= content_type_name());
    if n != m {
        return false;
    }
    let mut i: usize = 0;
    while i < n
        invariant
            n == name@.len(),
            n == expected@.len(),
            expected@ == content_type_name(),
            i <= n,
            forall|j: int| 0 <= j < i ==> ascii_lower(name@[j]) == ascii_lower(expected@[j]),
        decreases n - i,
    {
        let a = name.get_char(i);
        let b = expected.get_char(i);
        let la = if 'A' <= a && a <= 'Z' {
            ((a as u8) + 32) as char
        } else {
            a
        };
        let lb = if 'A' <= b && b <= 'Z' {
            ((b as u8) + 32) as char
        } else {
            b
        };
        if la != lb {
            return false;
        }
        i = i + 1;
    }
    true
}

fn is_visible_ascii(s: &Vec<u8>) -> (r: bool)
    ensures
        r == visible_ascii(s@),
{
    let mut i: usize = 0;
    while i < s.len()
        invariant
            i <= s@.len(),
            forall|j: int| 0 <= j < i ==> ((32 <= #[trigger] s@[j] && s@[j] <= 126) || s@[j] == 9),
        decreases s.len() - i,
    {
        let b = s[i];
        if !((32 <= b && b <= 126) || b == 9) {
            return false;
        }
        i = i + 1;
    }
    true
}

/// The media type of a message with the given header fields.
pub fn mime_type(headers: &Vec<Header>) -> (r: String)
    ensures
        r@ == mime_type_of(headers_view(headers@)),
{
    let ghost hv = headers_view(headers@);
    let mut i: usize = 0;
    assert(hv.subrange(0, hv.len() as int) =~= hv);
    while i < headers.len()
        invariant
            i <= headers@.len(),
            hv == headers_view(headers@),
            hv.len() == headers@.len(),
            first_content_type(hv) == first_content_type(hv.subrange(i as int, hv.len() as int)),
        decreases headers.len() - i,
    {
        let ghost rest = hv.subrange(i as int, hv.len() as int);
        proof {
            assert(rest.drop_first() =~= hv.subrange(i + 1, hv.len() as int));
            assert(rest[0] == headers@[i as int]@);
        }
        if is_content_type(headers[i].name.as_str()) {
            if is_visible_ascii(&headers[i].value) {
                let v = headers[i].value.clone();
                assert(v@ =~= headers@[i as int].value@);
                return body_text(v);
            } else {
                let r = String::from_str("application/octet-stream");
                proof {
                    reveal_strlit("application/octet-stream");
                    assert(r@ =~= octet_stream());
                }
                return r;
            }
        }
        i = i + 1;
    }
    assert(hv.subrange(i as int, hv.len() as int).len() == 0);
    proof {
        reveal_strlit("application/octet-stream");
    }
    let r = String::from_str("application/octet-stream");
    assert(r@ =~= octet_stream());
    r
}

/// Relies on `String::from_utf8`: it accepts exactly the valid UTF-8
/// sequences and decodes them.
#[verifier::external_body]
fn utf8_string(bytes: Vec<u8>) -> (r: Option<String>)
    ensures
        match r {
            Some(s) => valid_utf8(bytes@) && s@ == decode_utf8(bytes@),
            None => !valid_utf8(bytes@),
        },
{
    String::from_utf8(bytes).ok()
}

/// The text that HAR records for a body: its UTF-8 decoding, or the empty
/// text where the bytes are not UTF-8.
pub open spec fn body_text_of(bytes: Seq<u8>) -> Seq<char> {
    if valid_utf8(bytes) {
        decode_utf8(bytes)
    } else {
        Seq::empty()
    }
}

/// Decodes a captured body into the text that HAR records.
pub fn body_text(bytes: Vec<u8>) -> (r: String)
    ensures
        r@ == body_text_of(bytes@),
{
    match utf8_string(bytes) {
        Some(s) => s,
        None => String::new(),
    }
}

/// What `http::StatusCode::canonical_reason` gives for a status code.
pub uninterp spec fn reason_phrase_of(code: u16) -> Option<Seq<char>>;

/// Relies on `http::StatusCode::from_u16`, which accepts the codes from 100
/// to 999, and on `StatusCode::canonical_reason` of the code it returns.
#[verifier::external_body]
fn canonical_reason(code: u16) -> (r: Option<String>)
    requires
        100 <= code <= 999,
    ensures
        opt_text(r) == reason_phrase_of(code),
{
    match http::StatusCode::from_u16(code) {
        Ok(status) => status.canonical_reason().map(str::to_string),
        Err(_) => None,
    }
}

/// The reason phrase recorded for a status: the canonical one where the
/// code is valid and has one, else the empty text.
pub open spec fn status_text_of(code: u16) -> Seq<char> {
    if 100 <= code <= 999 {
        match reason_phrase_of(code) {
            Some(t) => t,
            None => Seq::empty(),
        }
    } else {
        Seq::empty()
    }
}

pub fn status_text(code: u16) -> (r: String)
    ensures
        r@ == status_text_of(code),
{
    if 100 <= code && code <= 999 {
        match canonical_reason(code) {
            Some(t) => t,
            None => String::new(),
        }
    } else {
        String::new()
    }
}

/// The head of a request as received: method, target URI, version and
/// header fields in order.
pub struct RequestHead {
    pub method: String,
    pub uri: String,
    pub version: HttpVersion,
    pub headers: Vec<Header>,
}

/// The head of a response: status (0 where the upstream gave none),
/// version and header fields in order.
pub struct ResponseHead {
    pub status: u16,
    pub version: HttpVersion,
    pub headers: Vec<Header>,
}

/// The bytes of a body that reached the capture side, and whether they are
/// all of it: a body whose stream failed or whose capture lagged is
/// incomplete.
pub struct CapturedBody {
    pub bytes: Vec<u8>,
    pub complete: bool,
}

/// The size recorded for a body: its length when it was captured whole,
/// -1 (unknown) otherwise.
pub open spec fn body_size_of(b: CapturedBody) -> i64 {
    if b.complete && b.bytes@.len() <= 9223372036854775807 {
        b.bytes@.len() as i64
    } else {
        -1i64
    }
}

fn body_size(b: &CapturedBody) -> (r: i64)
    ensures
        r == body_size_of(*b),
{
    let n = b.bytes.len();
    if b.complete && (n as u64) <= 9223372036854775807u64 {
        n as i64
    } else {
        -1
    }
}

/// The tool that wrote a log.
pub struct Creator {
    pub name: String,
    pub version: String,
}

/// A request body as HAR records it.
pub struct PostData {
    pub mime_type: String,
    pub text: Option<String>,
}

/// The request of a HAR entry.
pub struct HarRequest {
    pub method: String,
    pub url: String,
    pub http_version: String,
    pub headers: Vec<HarHeader>,
    pub post_data: Option<PostData>,
    pub headers_size: i64,
    pub body_size: i64,
}

/// A response body as HAR records it.
pub struct Content {
    pub size: i64,
    pub mime_type: Option<String>,
    pub text: Option<String>,
}

/// The response of a HAR entry.
pub struct HarResponse {
    pub status: i64,
    pub status_text: String,
    pub http_version: String,
    pub headers: Vec<HarHeader>,
    pub content: Content,
    pub headers_size: i64,
    pub body_size: i64,
}

/// Phase durations in whole milliseconds; zero where unknown.
pub struct Timings {
    pub send: u64,
    pub wait: u64,
    pub receive: u64,
}

/// One captured transaction.
pub struct Entry {
    pub started_date_time: String,
    pub time: u64,
    pub request: HarRequest,
    pub response: HarResponse,
    pub timings: Timings,
}

/// A HAR 1.3 log.
pub struct Har {
    pub creator: Creator,
    pub entries: Vec<Entry>,
}

pub open spec fn creator_name() -> Seq<char> {
    seq!['p', 'a', 'r', 'k']
}

pub open spec fn creator_version() -> Seq<char> {
    seq!['0', '.', '1', '.', '0']
}

/// Converts wire header fields to HAR ones, decoding each value.
fn to_har_headers(hs: Vec<Header>) -> (r: Vec<HarHeader>)
    ensures
        har_headers_view(r@) == headers_as_text(headers_view(hs@)),
{
    let mut r: Vec<HarHeader> = Vec::new();
    let mut i: usize = 0;
    while i < hs.len()
        invariant
            i <= hs@.len(),
            r@.len() == i,
            forall|j: int| 0 <= j < i ==> #[trigger] r@[j]@ == (hs@[j].name@, body_text_of(hs@[j].value@)),
        decreases hs.len() - i,
    {
        let name = hs[i].name.clone();
        let value = hs[i].value.clone();
        assert(value@ =~= hs@[i as int].value@);
        let h = HarHeader { name, value: body_text(value) };
        r.push(h);
        assert(r@[i as int]@ == (hs@[i as int].name@, body_text_of(hs@[i as int].value@)));
        i = i + 1;
    }
    assert(har_headers_view(r@) =~= headers_as_text(headers_view(hs@)));
    r
}

/// Converts HAR header fields to wire ones, encoding each value as UTF-8.
fn to_wire_headers(hs: Vec<HarHeader>) -> (r: Vec<Header>)
    ensures
        headers_view(r@) == headers_as_bytes(har_headers_view(hs@)),
{
    let mut r: Vec<Header> = Vec::new();
    let mut i: usize = 0;
    while i < hs.len()
        invariant
            i <= hs@.len(),
            r@.len() == i,
            forall|j: int| 0 <= j < i ==> #[trigger] r@[j]@ == (hs@[j].name@, encode_utf8(hs@[j].value@)),
        decreases hs.len() - i,
    {
        let name = hs[i].name.clone();
        let value = hs[i].value.as_str().as_bytes_vec();
        let h = Header { name, value };
        r.push(h);
        assert(r@[i as int]@ == (hs@[i as int].name@, encode_utf8(hs@[i as int].value@)));
        i = i + 1;
    }
    assert(headers_view(r@) =~= headers_as_bytes(har_headers_view(hs@)));
    r
}

/// The HAR request recorded for a request head and its captured body.
pub open spec fn records_request(r: HarRequest, head: RequestHead, body: CapturedBody) -> bool {
    &&& r.method@ == head.method@
    &&& r.url@ == head.uri@
    &&& r.http_version@ == version_text(head.version)
    &&& har_headers_view(r.headers@) == headers_as_text(headers_view(head.headers@))
    &&& r.post_data is Some
    &&& r.post_data->0.mime_type@ == mime_type_of(headers_view(head.headers@))
    &&& opt_text(r.post_data->0.text) == Some(body_text_of(body.bytes@))
    &&& r.headers_size == 0
    &&& r.body_size == body_size_of(body)
}

/// The HAR response recorded for a response head and its captured body.
pub open spec fn records_response(r: HarResponse, head: ResponseHead, body: CapturedBody) -> bool {
    &&& r.status == head.status as i64
    &&& r.status_text@ == status_text_of(head.status)
    &&& r.http_version@ == version_text(head.version)
    &&& har_headers_view(r.headers@) == headers_as_text(headers_view(head.headers@))
    &&& r.content.size == 0
    &&& opt_text(r.content.mime_type) == Some(mime_type_of(headers_view(head.headers@)))
    &&& opt_text(r.content.text) == Some(body_text_of(body.bytes@))
    &&& r.headers_size == 0
    &&& r.body_size == body_size_of(body)
}

impl Har {
    /// The log of one transaction: this tool as creator, and one entry with
    /// the request and response as observed, timings zero.
    pub open spec fn records(
        self,
        req: RequestHead,
        req_body: CapturedBody,
        resp: ResponseHead,
        resp_body: CapturedBody,
    ) -> bool {
        &&& self.creator.name@ == creator_name()
        &&& self.creator.version@ == creator_version()
        &&& self.entries@.len() == 1
        &&& records_request(self.entries@[0].request, req, req_body)
        &&& records_response(self.entries@[0].response, resp, resp_body)
        &&& self.entries@[0].started_date_time@ == Seq::<char>::empty()
        &&& self.entries@[0].time == 0
        &&& self.entries@[0].timings.send == 0
        &&& self.entries@[0].timings.wait == 0
        &&& self.entries@[0].timings.receive == 0
    }

    /// Builds the log of one transaction from both heads and the bodies
    /// that reached the capture side.
    pub fn from_transaction(
        req: RequestHead,
        req_body: CapturedBody,
        resp: ResponseHead,
        resp_body: CapturedBody,
    ) -> (r: Har)
        ensures
            r.records(req, req_body, resp, resp_body),
    {
        let req_size = body_size(&req_body);
        let req_text = body_text(req_body.bytes);
        let req_mime = mime_type(&req.headers);
        let request = HarRequest {
            method: req.method,
            url: req.uri,
            http_version: display_version(req.version),
            headers: to_har_headers(req.headers),
            post_data: Some(PostData { mime_type: req_mime, text: Some(req_text) }),
            headers_size: 0,
            body_size: req_size,
        };
        let resp_size = body_size(&resp_body);
        let resp_text = body_text(resp_body.bytes);
        let resp_mime = mime_type(&resp.headers);
        let response = HarResponse {
            status: resp.status as i64,
            status_text: status_text(resp.status),
            http_version: display_version(resp.version),
            headers: to_har_headers(resp.headers),
            content: Content { size: 0, mime_type: Some(resp_mime), text: Some(resp_text) },
            headers_size: 0,
            body_size: resp_size,
        };
        let entry = Entry {
            started_date_time: String::new(),
            time: 0,
            request,
            response,
            timings: Timings { send: 0, wait: 0, receive: 0 },
        };
        proof {
            reveal_strlit("park");
            reveal_strlit("0.1.0");
        }
        let creator = Creator { name: String::from_str("park"), version: String::from_str("0.1.0") };
        assert(creator.name@ =~= creator_name());
        assert(creator.version@ =~= creator_version());
        let mut entries: Vec<Entry> = Vec::new();
        entries.push(entry);
        Har { creator, entries }
    }
}

/// Why a HAR cannot be replayed.
#[derive(Clone, Copy, Debug, PartialEq, Eq, Structural)]
pub enum HarError {
    /// The log does not hold exactly one entry, or its method, URL or a
    /// header field is not valid HTTP.
    MalformedCapture,
}

/// A request ready to be submitted to the proxy.
pub struct ReplayRequest {
    pub method: String,
    pub url: String,
    pub headers: Vec<Header>,
    pub body: Vec<u8>,
}

impl View for ReplayRequest {
    type V = (Seq<char>, Seq<char>, Seq<(Seq<char>, Seq<u8>)>, Seq<u8>);

    open spec fn view(&self) -> Self::V {
        (self.method@, self.url@, headers_view(self.headers@), self.body@)
    }
}

/// The body a HAR request carries: the UTF-8 encoding of its post data's
/// text, or nothing.
pub open spec fn post_body_of(p: Option<PostData>) -> Seq<u8> {
    match p {
        Some(d) => match d.text {
            Some(t) => encode_utf8(t@),
            None => Seq::empty(),
        },
        None => Seq::empty(),
    }
}

/// The request a HAR log describes, or why it describes none.
pub open spec fn replay_of(h: Har) -> Result<
    (Seq<char>, Seq<char>, Seq<(Seq<char>, Seq<u8>)>, Seq<u8>),
    HarError,
> {
    if h.entries@.len() != 1 {
        Err(HarError::MalformedCapture)
    } else {
        let r = h.entries@[0].request;
        Ok((r.method@, r.url@, headers_as_bytes(har_headers_view(r.headers@)), post_body_of(r.post_data)))
    }
}

pub open spec fn replay_result_view(r: Result<ReplayRequest, HarError>) -> Result<
    (Seq<char>, Seq<char>, Seq<(Seq<char>, Seq<u8>)>, Seq<u8>),
    HarError,
> {
    match r {
        Ok(q) => Ok(q@),
        Err(e) => Err(e),
    }
}

/// Whether `http::Method::from_bytes` accepts a method.
pub uninterp spec fn method_accepted(m: Seq<char>) -> bool;

/// Whether `http::Uri` parses a text.
pub uninterp spec fn uri_accepted(u: Seq<char>) -> bool;

/// Whether `http::HeaderName::from_bytes` accepts a name.
pub uninterp spec fn header_name_accepted(n: Seq<char>) -> bool;

/// Whether `http::HeaderValue::from_bytes` accepts a value.
pub uninterp spec fn header_value_accepted(v: Seq<u8>) -> bool;

/// Relies on `http::Method::from_bytes` to tell a valid method.
#[verifier::external_body]
fn valid_method(m: &str) -> (r: bool)
    ensures
        r == method_accepted(m@),
{
    http::Method::from_bytes(m.as_bytes()).is_ok()
}

/// Relies on `http::Uri`'s `FromStr` to tell a valid URI.
#[verifier::external_body]
fn valid_uri(u: &str) -> (r: bool)
    ensures
        r == uri_accepted(u@),
{
    u.parse::<http::Uri>().is_ok()
}

/// Relies on `http::HeaderName::from_bytes` to tell a valid field name.
#[verifier::external_body]
fn valid_header_name(n: &str) -> (r: bool)
    ensures
        r == header_name_accepted(n@),
{
    http::HeaderName::from_bytes(n.as_bytes()).is_ok()
}

/// Relies on `http::HeaderValue::from_bytes` to tell a valid field value.
#[verifier::external_body]
fn valid_header_value(v: &Vec<u8>) -> (r: bool)
    ensures
        r == header_value_accepted(v@),
{
    http::HeaderValue::from_bytes(v.as_slice()).is_ok()
}

/// Every field's name and value are accepted.
pub open spec fn headers_accepted(hs: Seq<(Seq<char>, Seq<u8>)>) -> bool {
    forall|i: int|
        0 <= i < hs.len() ==> header_name_accepted(#[trigger] hs[i].0) && header_value_accepted(
            hs[i].1,
        )
}

/// A request is valid HTTP when its method, URL and header fields are.
pub open spec fn request_accepted(
    q: (Seq<char>, Seq<char>, Seq<(Seq<char>, Seq<u8>)>, Seq<u8>),
) -> bool {
    method_accepted(q.0) && uri_accepted(q.1) && headers_accepted(q.2)
}

/// The result of decoding a HAR log.
pub open spec fn decode_of(h: Har) -> Result<
    (Seq<char>, Seq<char>, Seq<(Seq<char>, Seq<u8>)>, Seq<u8>),
    HarError,
> {
    match replay_of(h) {
        Ok(q) => if request_accepted(q) {
            Ok(q)
        } else {
            Err(HarError::MalformedCapture)
        },
        Err(e) => Err(e),
    }
}

fn headers_valid(hs: &Vec<Header>) -> (r: bool)
    ensures
        r == headers_accepted(headers_view(hs@)),
{
    let ghost hv = headers_view(hs@);
    let mut i: usize = 0;
    while i < hs.len()
        invariant
            i <= hs@.len(),
            hv == headers_view(hs@),
            hv.len() == hs@.len(),
            forall|j: int|
                0 <= j < i ==> header_name_accepted(#[trigger] hv[j].0) && header_value_accepted(
                    hv[j].1,
                ),
        decreases hs.len() - i,
    {
        let name_ok = valid_header_name(hs[i].name.as_str());
        let value_ok = valid_header_value(&hs[i].value);
        assert(hv[i as int] == hs@[i as int]@);
        if !name_ok || !value_ok {
            assert(!(header_name_accepted(hv[i as int].0) && header_value_accepted(hv[i as int].1)));
            assert(!headers_accepted(hv)) by {
                if headers_accepted(hv) {
                    assert(0 <= i < hv.len());
                    assert(header_name_accepted(hv[i as int].0));
                    assert(header_value_accepted(hv[i as int].1));
                }
            }
            return false;
        }
        assert forall|j: int| 0 <= j < i + 1 implies header_name_accepted(#[trigger] hv[j].0)
            && header_value_accepted(hv[j].1) by {
            if j == i as int {
                assert(header_name_accepted(hv[i as int].0));
            }
        }
        i = i + 1;
    }
    true
}

impl ReplayRequest {
    /// Keeps the request when its method, URL and header fields were found
    /// valid.
    pub fn accept(self, method_ok: bool, uri_ok: bool, headers_ok: bool) -> (r: Result<
        ReplayRequest,
        HarError,
    >)
        ensures
            method_ok && uri_ok && headers_ok ==> replay_result_view(r) == Ok::<
                (Seq<char>, Seq<char>, Seq<(Seq<char>, Seq<u8>)>, Seq<u8>),
                HarError,
            >(self@),
            !(method_ok && uri_ok && headers_ok) ==> r == Err::<ReplayRequest, HarError>(
                HarError::MalformedCapture,
            ),
    {
        if method_ok && uri_ok && headers_ok {
            Ok(self)
        } else {
            Err(HarError::MalformedCapture)
        }
    }
}

impl Har {
    /// The request that a log of exactly one entry describes: its method,
    /// URL and header fields in order, and the UTF-8 bytes of its post data.
    pub fn replay_request(self) -> (r: Result<ReplayRequest, HarError>)
        ensures
            replay_result_view(r) == replay_of(self),
    {
        let ghost h = self;
        let mut entries = self.entries;
        if entries.len() != 1 {
            return Err(HarError::MalformedCapture);
        }
        let entry = entries.pop().unwrap();
        assert(entry == h.entries@[0]);
        let request = entry.request;
        let body = match request.post_data {
            Some(d) => match d.text {
                Some(t) => t.as_str().as_bytes_vec(),
                None => Vec::new(),
            },
            None => Vec::new(),
        };
        assert(body@ =~= post_body_of(request.post_data));
        Ok(
            ReplayRequest {
                method: request.method,
                url: request.url,
                headers: to_wire_headers(request.headers),
                body,
            },
        )
    }

    /// Decodes a log into a request ready to submit; refused unless it holds
    /// exactly one entry whose method, URL and header fields are valid.
    pub fn to_request(self) -> (r: Result<ReplayRequest, HarError>)
        ensures
            replay_result_view(r) == decode_of(self),
    {
        match self.replay_request() {
            Err(e) => Err(e),
            Ok(q) => {
                let method_ok = valid_method(q.method.as_str());
                let uri_ok = valid_uri(q.url.as_str());
                let headers_ok = headers_valid(&q.headers);
                q.accept(method_ok, uri_ok, headers_ok)
            },
        }
    }
}

/// Every header value is UTF-8.
pub open spec fn header_values_utf8(hs: Seq<(Seq<char>, Seq<u8>)>) -> bool {
    forall|i: int| 0 <= i < hs.len() ==> valid_utf8(#[trigger] hs[i].1)
}

/// Decoding the log built for a transaction gives back the request as it
/// was received: its method, URL, header fields in order and body bytes,
/// where the header values are UTF-8. A body that is not UTF-8 comes back
/// empty.
pub proof fn lemma_har_round_trip(
    h: Har,
    req: RequestHead,
    req_body: CapturedBody,
    resp: ResponseHead,
    resp_body: CapturedBody,
)
    requires
        h.records(req, req_body, resp, resp_body),
        request_accepted((req.method@, req.uri@, headers_view(req.headers@), req_body.bytes@)),
        header_values_utf8(headers_view(req.headers@)),
    ensures
        decode_of(h) == Ok::<(Seq<char>, Seq<char>, Seq<(Seq<char>, Seq<u8>)>, Seq<u8>), HarError>(
            (
                req.method@,
                req.uri@,
                headers_view(req.headers@),
                if valid_utf8(req_body.bytes@) {
                    req_body.bytes@
                } else {
                    Seq::empty()
                },
            ),
        ),
{
    let r = h.entries@[0].request;
    if valid_utf8(req_body.bytes@) {
        decode_utf8_encode_utf8(req_body.bytes@);
    } else {
        assert(encode_utf8(Seq::<char>::empty()) =~= Seq::<u8>::empty());
    }
    assert(post_body_of(r.post_data) == encode_utf8(body_text_of(req_body.bytes@)));
    let hv = headers_view(req.headers@);
    assert forall|i: int| 0 <= i < hv.len() implies #[trigger] headers_as_bytes(headers_as_text(hv))[i]
        == hv[i] by {
        decode_utf8_encode_utf8(hv[i].1);
    }
    assert(headers_as_bytes(headers_as_text(hv)) =~= hv);
}

} // verus!
