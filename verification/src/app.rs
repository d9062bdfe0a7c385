//! The application router: a pure dispatch from method and path to a fixed
//! set of handlers, together with the internal request and response model.

use vstd::prelude::*;

verus! {

use crate::payload::in_i32;
use crate::payload::parse_sum;
use crate::payload::spec_parse_sum;
use crate::text::chars_of;
use crate::text::dec_i64;
use crate::text::dec_int;
use crate::text::str_eq;

/// The closed set of methods the internal model admits.
#[derive(Clone, Copy, PartialEq, Eq, Structural, Debug)]
pub enum Method {
    GET,
    POST,
    PUT,
    DELETE,
}

/// The closed set of statuses the router produces.
#[derive(Clone, Copy, PartialEq, Eq, Structural, Debug)]
pub enum StatusCode {
    OK,
    NOTFOUND,
}

/// The normalized, transport-agnostic request handed to the router.
#[derive(Clone, PartialEq, Eq, Debug)]
pub struct AppRequest {
    pub method: Method,
    pub path: String,
    pub headers: Vec<(String, String)>,
    pub body: Option<String>,
}

/// The normalized response the router returns.
#[derive(Clone, PartialEq, Eq, Debug)]
pub struct AppResponse {
    pub code: StatusCode,
    pub headers: Vec<(String, String)>,
    pub body: Option<String>,
}

/// The mathematical content of an internal request.
#[verifier::ext_equal]
pub struct ReqView {
    pub method: Method,
    pub path: Seq<char>,
    pub headers: Seq<(Seq<char>, Seq<char>)>,
    pub body: Option<Seq<char>>,
}

/// The mathematical content of an internal response.
#[verifier::ext_equal]
pub struct RespView {
    pub code: StatusCode,
    pub headers: Seq<(Seq<char>, Seq<char>)>,
    pub body: Option<Seq<char>>,
}

/// The character content of a header list.
pub open spec fn hview(hs: Seq<(String, String)>) -> Seq<(Seq<char>, Seq<char>)> {
    Seq::new(hs.len(), |k: int| (hs[k].0@, hs[k].1@))
}

/// The character content of an optional text value.
pub open spec fn body_view(b: Option<String>) -> Option<Seq<char>> {
    match b {
        Some(s) => Some(s@),
        None => None,
    }
}

impl View for AppRequest {
    type V = ReqView;

    open spec fn view(&self) -> ReqView {
        ReqView {
            method: self.method,
            path: self.path@,
            headers: hview(self.headers@),
            body: body_view(self.body),
        }
    }
}

impl View for AppResponse {
    type V = RespView;

    open spec fn view(&self) -> RespView {
        RespView {
            code: self.code,
            headers: hview(self.headers@),
            body: body_view(self.body),
        }
    }
}

impl ReqView {
    /// A GET request never carries a body; constructing one that does is a
    /// translator-level contract violation, not a valid state.
    pub open spec fn wf(self) -> bool {
        self.method == Method::GET ==> self.body is None
    }
}

// ---------------------------------------------------------------------------
// What the router answers, in specification form
// ---------------------------------------------------------------------------

/// The response of the sum handler for a given body.
pub open spec fn spec_sum_response(body: Option<Seq<char>>) -> (StatusCode, Seq<char>) {
    match body {
        None => (StatusCode::NOTFOUND, "404!"@),
        Some(s) => match spec_parse_sum(s) {
            None => (StatusCode::NOTFOUND, "404!"@),
            Some((a, b)) => (StatusCode::OK, "Sum = "@ + dec_int(a + b)),
        },
    }
}

/// The status and body the router answers, as a function of the method, the
/// path and the body alone.  `None` stands for the one route whose body is
/// not a function of the request: the current time.
pub open spec fn spec_response(method: Method, path: Seq<char>, body: Option<Seq<char>>) -> Option<
    (StatusCode, Seq<char>),
> {
    match method {
        Method::GET => {
            if path == "/"@ || path == "/health"@ {
                Some((StatusCode::OK, "ok!"@))
            } else if path == "/time"@ {
                None
            } else {
                Some((StatusCode::NOTFOUND, "404!"@))
            }
        },
        Method::POST => {
            if path == "/sum"@ {
                Some(spec_sum_response(body))
            } else {
                Some((StatusCode::NOTFOUND, "404!"@))
            }
        },
        _ => Some((StatusCode::NOTFOUND, "404!"@)),
    }
}

/// A response equals a given status and body and carries no headers.
pub open spec fn resp_is(res: AppResponse, cb: (StatusCode, Seq<char>)) -> bool {
    res@.code == cb.0 && res@.headers.len() == 0 && res@.body == Some(cb.1)
}

/// The routing table covers the pair.
pub open spec fn spec_routed(method: Method, path: Seq<char>) -> bool {
    (method == Method::GET && (path == "/"@ || path == "/health"@ || path == "/time"@)) || (method
        == Method::POST && path == "/sum"@)
}

// ---------------------------------------------------------------------------
// Handlers
// ---------------------------------------------------------------------------

/// The health handler: a fixed OK answer.
pub fn health_ok() -> (res: AppResponse)
    ensures
        resp_is(res, (StatusCode::OK, "ok!"@)),
{
    AppResponse { code: StatusCode::OK, headers: Vec::new(), body: Some(String::from_str("ok!")) }
}

/// The fallback handler: the uniform not-found answer.
pub fn handle_404() -> (res: AppResponse)
    ensures
        resp_is(res, (StatusCode::NOTFOUND, "404!"@)),
{
    AppResponse {
        code: StatusCode::NOTFOUND,
        headers: Vec::new(),
        body: Some(String::from_str("404!")),
    }
}

/// Relies on std::time::SystemTime::now for the current instant, rendered
/// with its Debug format.
#[verifier::external_body]
fn now_text() -> (r: String) {
    format!("{:?}", std::time::SystemTime::now())
}

/// The time handler: OK with a textual rendering of the current instant.
pub fn time(req: AppRequest) -> (res: AppResponse)
    ensures
        res@.code == StatusCode::OK,
        res@.headers.len() == 0,
        res@.body is Some,
{
    let _ = req;
    AppResponse { code: StatusCode::OK, headers: Vec::new(), body: Some(now_text()) }
}

/// The sum handler: requires a present body holding the addition payload,
/// and answers the sum; any missing or malformed input gets the uniform
/// not-found answer.  The two addends are 32-bit values; their sum is
/// computed in 64-bit arithmetic, so it never overflows.
pub fn sum(req: AppRequest) -> (res: AppResponse)
    ensures
        resp_is(res, spec_sum_response(req@.body)),
{
    let body = match req.body {
        Some(b) => b,
        None => {
            return handle_404();
        },
    };
    let cs = chars_of(body.as_str());
    match parse_sum(&cs) {
        None => handle_404(),
        Some((a, b)) => {
            let total: i64 = a + b;
            let mut s = String::from_str("Sum = ");
            let digits = dec_i64(total);
            s.append(digits.as_str());
            proof {
                assert(s@ =~= "Sum = "@ + dec_int(a + b));
            }
            AppResponse { code: StatusCode::OK, headers: Vec::new(), body: Some(s) }
        },
    }
}

// ---------------------------------------------------------------------------
// Dispatch
// ---------------------------------------------------------------------------

/// Dispatches a GET request on its exact path.
pub fn route_get(req: AppRequest) -> (res: AppResponse)
    ensures
        match spec_response(Method::GET, req@.path, req@.body) {
            Some(cb) => resp_is(res, cb),
            None => res@.code == StatusCode::OK && res@.headers.len() == 0 && res@.body is Some,
        },
{
    if str_eq(req.path.as_str(), "/") || str_eq(req.path.as_str(), "/health") {
        health_ok()
    } else if str_eq(req.path.as_str(), "/time") {
        time(req)
    } else {
        handle_404()
    }
}

/// Dispatches a POST request on its exact path.
pub fn route_post(req: AppRequest) -> (res: AppResponse)
    ensures
        match spec_response(Method::POST, req@.path, req@.body) {
            Some(cb) => resp_is(res, cb),
            None => false,
        },
{
    if str_eq(req.path.as_str(), "/sum") {
        sum(req)
    } else {
        handle_404()
    }
}

/// The application router: pure dispatch on method, then exact path.
pub fn router(req: AppRequest) -> (res: AppResponse)
    ensures
        match spec_response(req@.method, req@.path, req@.body) {
            Some(cb) => resp_is(res, cb),
            None => res@.code == StatusCode::OK && res@.headers.len() == 0 && res@.body is Some,
        },
{
    match req.method {
        Method::GET => route_get(req),
        Method::POST => route_post(req),
        _ => handle_404(),
    }
}

// ---------------------------------------------------------------------------
// Laws of the router
// ---------------------------------------------------------------------------

/// Any method and path outside the routing table gets the uniform not-found
/// answer, whatever the body.
pub proof fn lemma_unrouted_is_not_found(method: Method, path: Seq<char>, body: Option<Seq<char>>)
    requires
        !spec_routed(method, path),
    ensures
        spec_response(method, path, body) == Some((StatusCode::NOTFOUND, "404!"@)),
{
}

/// The health routes answer `ok!` whatever body the request carries; headers
/// never enter the dispatch at all.
pub proof fn lemma_health_always_ok(path: Seq<char>, body: Option<Seq<char>>)
    requires
        path == "/"@ || path == "/health"@,
    ensures
        spec_response(Method::GET, path, body) == Some((StatusCode::OK, "ok!"@)),
{
}

/// Dispatch and parsing see only the method, the path and the body: two
/// requests that agree on those three get the same routing outcome, whatever
/// their headers.
pub proof fn lemma_headers_do_not_affect_routing(r1: ReqView, r2: ReqView)
    requires
        r1.method == r2.method,
        r1.path == r2.path,
        r1.body == r2.body,
    ensures
        spec_response(r1.method, r1.path, r1.body) == spec_response(r2.method, r2.path, r2.body),
{
}

} // verus!
