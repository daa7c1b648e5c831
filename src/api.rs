use vstd::prelude::*;

use crate::har::{decode_of, replay_result_view, Har, HarError, ReplayRequest};
use crate::proxy::PlainResponse;
use crate::text::same_text;

verus! {

/// The endpoints of the control API.
#[derive(Clone, Copy, Debug, PartialEq, Eq, Structural)]
pub enum ApiRoute {
    /// `GET /`: liveness.
    Hello,
    /// `GET /requests/latest`: the latest capture.
    Latest,
    /// `POST /requests`: replay a posted HAR through the proxy.
    Replay,
    /// Anything else.
    NotFound,
}

pub open spec fn get_method() -> Seq<char> {
    seq!['G', 'E', 'T']
}

pub open spec fn post_method() -> Seq<char> {
    seq!['P', 'O', 'S', 'T']
}

pub open spec fn root_path() -> Seq<char> {
    seq!['/']
}

pub open spec fn latest_path() -> Seq<char> {
    seq!['/', 'r', 'e', 'q', 'u', 'e', 's', 't', 's', '/', 'l', 'a', 't', 'e', 's', 't']
}

pub open spec fn requests_path() -> Seq<char> {
    seq!['/', 'r', 'e', 'q', 'u', 'e', 's', 't', 's']
}

pub open spec fn api_route_of(method: Seq<char>, path: Seq<char>) -> ApiRoute {
    if method == get_method() && path == root_path() {
        ApiRoute::Hello
    } else if method == get_method() && path == latest_path() {
        ApiRoute::Latest
    } else if method == post_method() && path == requests_path() {
        ApiRoute::Replay
    } else {
        ApiRoute::NotFound
    }
}

/// Picks the endpoint for a method and path.
pub fn api_route(method: &str, path: &str) -> (r: ApiRoute)
    ensures
        r == api_route_of(method@, path@),
{
    proof {
        reveal_strlit("GET");
        reveal_strlit("POST");
        reveal_strlit("/");
        reveal_strlit("/requests/latest");
        reveal_strlit("/requests");
        assert("GET"@ =~= get_method());
        assert("POST"@ =~= post_method());
        assert("/"@ =~= root_path());
        assert("/requests/latest"@ =~= latest_path());
        assert("/requests"@ =~= requests_path());
    }
    let get = same_text(method, "GET");
    if get && same_text(path, "/") {
        ApiRoute::Hello
    } else if get && same_text(path, "/requests/latest") {
        ApiRoute::Latest
    } else if same_text(method, "POST") && same_text(path, "/requests") {
        ApiRoute::Replay
    } else {
        ApiRoute::NotFound
    }
}

pub open spec fn hello_text() -> Seq<char> {
    seq!['H', 'e', 'l', 'l', 'o', ',', ' ', 'W', 'o', 'r', 'l', 'd', '!']
}

pub open spec fn not_found_text() -> Seq<char> {
    seq!['N', 'o', 't', ' ', 'f', 'o', 'u', 'n', 'd']
}

pub open spec fn malformed_text() -> Seq<char> {
    seq!['M', 'a', 'l', 'f', 'o', 'r', 'm', 'e', 'd', ' ', 'h', 'a', 'r', ' ', 'f', 'i', 'l', 'e']
}

/// The liveness answer.
pub fn hello() -> (r: PlainResponse)
    ensures
        r.status == 200,
        r.body@ == hello_text(),
{
    proof {
        reveal_strlit("Hello, World!");
    }
    let r = PlainResponse { status: 200, body: String::from_str("Hello, World!") };
    assert(r.body@ =~= hello_text());
    r
}

/// The answer for an unknown endpoint or an empty store.
pub fn not_found() -> (r: PlainResponse)
    ensures
        r.status == 404,
        r.body@ == not_found_text(),
{
    proof {
        reveal_strlit("Not found");
    }
    let r = PlainResponse { status: 404, body: String::from_str("Not found") };
    assert(r.body@ =~= not_found_text());
    r
}

/// The answer to a posted HAR that cannot be replayed.
pub fn malformed_har() -> (r: PlainResponse)
    ensures
        r.status == 400,
        r.body@ == malformed_text(),
{
    proof {
        reveal_strlit("Malformed har file");
    }
    let r = PlainResponse { status: 400, body: String::from_str("Malformed har file") };
    assert(r.body@ =~= malformed_text());
    r
}

/// The answer to `GET /requests/latest`: the latest capture's JSON, or 404
/// when the store holds none.
pub fn latest_response(latest: Option<String>) -> (r: PlainResponse)
    ensures
        match latest {
            Some(j) => r.status == 200 && r.body@ == j@,
            None => r.status == 404 && r.body@ == not_found_text(),
        },
{
    match latest {
        Some(j) => PlainResponse { status: 200, body: j },
        None => not_found(),
    }
}

/// What a posted HAR becomes: the request to replay, or the 400 answer
/// when the body was not a HAR (`None`) or the HAR cannot be replayed.
pub fn replay_decision(posted: Option<Har>) -> (r: Result<ReplayRequest, PlainResponse>)
    ensures
        match posted {
            None => r is Err,
            Some(h) => match decode_of(h) {
                Ok(q) => r is Ok && r->Ok_0@ == q,
                Err(_) => r is Err,
            },
        },
        r is Err ==> r->Err_0.status == 400 && r->Err_0.body@ == malformed_text(),
{
    match posted {
        None => Err(malformed_har()),
        Some(h) => {
            let ghost hv = h;
            let decoded = h.to_request();
            proof {
                assert(replay_result_view(decoded) == decode_of(hv));
            }
            match decoded {
                Ok(q) => Ok(q),
                Err(HarError::MalformedCapture) => Err(malformed_har()),
            }
        },
    }
}

} // verus!
