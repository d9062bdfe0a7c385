//! The translator: converts a raw transport request into an internal request
//! or fails closed, and converts an internal response back into a raw
//! transport response.
//!
//! Raw values model what the transport hands over: the method as an
//! uninterpreted token, header values and the body as byte sequences that
//! may or may not be text.

use vstd::prelude::*;

verus! {

use vstd::string::StringSliceAdditionalSpecFns;
use vstd::utf8::decode_utf8;
use vstd::utf8::encode_utf8;
use vstd::utf8::valid_utf8;
use crate::app::AppRequest;
use crate::app::AppResponse;
use crate::app::Method;
use crate::app::ReqView;
use crate::app::RespView;
use crate::app::StatusCode;
use crate::app::handle_404;
use crate::app::hview;
use crate::app::router;
use crate::app::spec_response;
use crate::text::str_eq;

/// Why a raw request was rejected before it reached the router.
#[derive(Clone, Copy, PartialEq, Eq, Structural, Debug)]
pub enum TranslatorError {
    InvalidMethod,
    InvalidHeaders,
    InvalidBody,
}

/// A raw transport request: method token, path, header values as bytes, and
/// an optional body as bytes.
#[derive(Clone, PartialEq, Eq, Debug)]
pub struct RawRequest {
    pub method: String,
    pub path: String,
    pub headers: Vec<(String, Vec<u8>)>,
    pub body: Option<Vec<u8>>,
}

/// A raw transport response: wire status code, headers, and the body bytes.
#[derive(Clone, PartialEq, Eq, Debug)]
pub struct RawResponse {
    pub status: u16,
    pub headers: Vec<(String, String)>,
    pub body: Vec<u8>,
}

/// The mathematical content of a raw request.
#[verifier::ext_equal]
pub struct RawReqView {
    pub method: Seq<char>,
    pub path: Seq<char>,
    pub headers: Seq<(Seq<char>, Seq<u8>)>,
    pub body: Option<Seq<u8>>,
}

/// The mathematical content of a raw response.
#[verifier::ext_equal]
pub struct RawRespView {
    pub status: u16,
    pub headers: Seq<(Seq<char>, Seq<char>)>,
    pub body: Seq<u8>,
}

/// The content of a raw header list.
pub open spec fn rhview(hs: Seq<(String, Vec<u8>)>) -> Seq<(Seq<char>, Seq<u8>)> {
    Seq::new(hs.len(), |k: int| (hs[k].0@, hs[k].1@))
}

impl View for RawRequest {
    type V = RawReqView;

    open spec fn view(&self) -> RawReqView {
        RawReqView {
            method: self.method@,
            path: self.path@,
            headers: rhview(self.headers@),
            body: match self.body {
                Some(b) => Some(b@),
                None => None,
            },
        }
    }
}

impl View for RawResponse {
    type V = RawRespView;

    open spec fn view(&self) -> RawRespView {
        RawRespView { status: self.status, headers: hview(self.headers@), body: self.body@ }
    }
}

// ---------------------------------------------------------------------------
// Trusted items: the outside calls the translator leans on
// ---------------------------------------------------------------------------

/// Relies on String::from_utf8: returns the decoded text exactly when the
/// bytes are valid UTF-8, and an error otherwise.
#[verifier::external_body]
fn utf8_to_string(v: &Vec<u8>) -> (r: Option<String>)
    ensures
        match r {
            Some(s) => valid_utf8(v@) && s@ == decode_utf8(v@),
            None => !valid_utf8(v@),
        },
{
    String::from_utf8(v.clone()).ok()
}

/// Whether the wire format accepts the characters as a header name.
pub uninterp spec fn valid_header_name(name: Seq<char>) -> bool;

/// Whether the wire format accepts the characters as a header value.
pub uninterp spec fn valid_header_value(value: Seq<char>) -> bool;

/// Relies on hyper's HeaderName::from_bytes: it accepts exactly the header
/// names the wire format allows, as a function of the characters alone.
#[verifier::external_body]
fn header_name_ok(name: &str) -> (r: bool)
    ensures
        r == valid_header_name(name@),
{
    hyper::header::HeaderName::from_bytes(name.as_bytes()).is_ok()
}

/// Relies on hyper's HeaderValue::from_str: it accepts exactly the header
/// values the wire format allows, as a function of the characters alone.
#[verifier::external_body]
fn header_value_ok(value: &str) -> (r: bool)
    ensures
        r == valid_header_value(value@),
{
    hyper::header::HeaderValue::from_str(value).is_ok()
}

// ---------------------------------------------------------------------------
// Decoding, in specification form
// ---------------------------------------------------------------------------

/// The method the token names, over the closed set the model admits.
pub open spec fn spec_method_of(tok: Seq<char>) -> Option<Method> {
    if tok == "GET"@ {
        Some(Method::GET)
    } else if tok == "POST"@ {
        Some(Method::POST)
    } else if tok == "PUT"@ {
        Some(Method::PUT)
    } else if tok == "DELETE"@ {
        Some(Method::DELETE)
    } else {
        None
    }
}

/// The method the token names, for the decoder that never sees GET.
pub open spec fn spec_method_other(tok: Seq<char>) -> Option<Method> {
    if tok == "POST"@ {
        Some(Method::POST)
    } else if tok == "DELETE"@ {
        Some(Method::DELETE)
    } else if tok == "PUT"@ {
        Some(Method::PUT)
    } else {
        None
    }
}

/// Every header value is valid UTF-8.
pub open spec fn headers_ok(hs: Seq<(Seq<char>, Seq<u8>)>) -> bool {
    forall|k: int| 0 <= k < hs.len() ==> valid_utf8((#[trigger] hs[k]).1)
}

/// The headers with every value decoded from UTF-8.
pub open spec fn decoded_headers(hs: Seq<(Seq<char>, Seq<u8>)>) -> Seq<(Seq<char>, Seq<char>)> {
    Seq::new(hs.len(), |k: int| (hs[k].0, decode_utf8(hs[k].1)))
}

/// The decode contract: method first, then headers, then the body.  A GET
/// body is not read at all; for the other methods an absent body stays
/// absent and present bytes must be text.
pub open spec fn spec_decode(rv: RawReqView) -> Result<ReqView, TranslatorError> {
    match spec_method_of(rv.method) {
        None => Err(TranslatorError::InvalidMethod),
        Some(m) => if !headers_ok(rv.headers) {
            Err(TranslatorError::InvalidHeaders)
        } else if m == Method::GET {
            Ok(
                ReqView {
                    method: m,
                    path: rv.path,
                    headers: decoded_headers(rv.headers),
                    body: None,
                },
            )
        } else {
            match rv.body {
                None => Ok(
                    ReqView {
                        method: m,
                        path: rv.path,
                        headers: decoded_headers(rv.headers),
                        body: None,
                    },
                ),
                Some(bs) => if valid_utf8(bs) {
                    Ok(
                        ReqView {
                            method: m,
                            path: rv.path,
                            headers: decoded_headers(rv.headers),
                            body: Some(decode_utf8(bs)),
                        },
                    )
                } else {
                    Err(TranslatorError::InvalidBody)
                },
            }
        },
    }
}

/// The GET decoder: the method is fixed, the body is never read.
pub open spec fn spec_decode_get(rv: RawReqView) -> Result<ReqView, TranslatorError> {
    if !headers_ok(rv.headers) {
        Err(TranslatorError::InvalidHeaders)
    } else {
        Ok(
            ReqView {
                method: Method::GET,
                path: rv.path,
                headers: decoded_headers(rv.headers),
                body: None,
            },
        )
    }
}

/// The decoder for the payload-carrying methods; a GET token is rejected.
pub open spec fn spec_decode_other(rv: RawReqView) -> Result<ReqView, TranslatorError> {
    match spec_method_other(rv.method) {
        None => Err(TranslatorError::InvalidMethod),
        Some(m) => if !headers_ok(rv.headers) {
            Err(TranslatorError::InvalidHeaders)
        } else {
            match rv.body {
                None => Ok(
                    ReqView {
                        method: m,
                        path: rv.path,
                        headers: decoded_headers(rv.headers),
                        body: None,
                    },
                ),
                Some(bs) => if valid_utf8(bs) {
                    Ok(
                        ReqView {
                            method: m,
                            path: rv.path,
                            headers: decoded_headers(rv.headers),
                            body: Some(decode_utf8(bs)),
                        },
                    )
                } else {
                    Err(TranslatorError::InvalidBody)
                },
            }
        },
    }
}

/// The content of a decode result.
pub open spec fn decode_result_view(r: Result<AppRequest, TranslatorError>) -> Result<
    ReqView,
    TranslatorError,
> {
    match r {
        Ok(q) => Ok(q@),
        Err(e) => Err(e),
    }
}

// ---------------------------------------------------------------------------
// Decoding, executable
// ---------------------------------------------------------------------------

/// Decodes every header value from UTF-8, failing fast on the first value
/// that is not text.
fn decode_headers(hs: &Vec<(String, Vec<u8>)>) -> (r: Result<Vec<(String, String)>, TranslatorError>)
    ensures
        match r {
            Ok(out) => headers_ok(rhview(hs@)) && hview(out@) == decoded_headers(rhview(hs@)),
            Err(e) => e == TranslatorError::InvalidHeaders && !headers_ok(rhview(hs@)),
        },
{
    let mut out: Vec<(String, String)> = Vec::new();
    let mut i: usize = 0;
    while i < hs.len()
        invariant
            i <= hs.len(),
            out@.len() == i,
            forall|k: int| 0 <= k < i ==> valid_utf8((#[trigger] hs@[k]).1@),
            forall|k: int|
                0 <= k < i ==> (#[trigger] out@[k]).0@ == hs@[k].0@ && out@[k].1@ == decode_utf8(
                    hs@[k].1@,
                ),
        decreases hs.len() - i,
    {
        let name = hs[i].0.clone();
        match utf8_to_string(&hs[i].1) {
            Some(val) => {
                out.push((name, val));
            },
            None => {
                proof {
                    assert(rhview(hs@)[i as int].1 == hs@[i as int].1@);
                }
                return Err(TranslatorError::InvalidHeaders);
            },
        }
        i += 1;
    }
    proof {
        assert forall|k: int| 0 <= k < rhview(hs@).len() implies valid_utf8(
            (#[trigger] rhview(hs@)[k]).1,
        ) by {
            assert(rhview(hs@)[k].1 == hs@[k].1@);
        }
        assert(hview(out@) =~= decoded_headers(rhview(hs@)));
    }
    Ok(out)
}

/// Decodes a raw request under the full contract: the method token over the
/// whole closed set, then the headers, then the body.
pub fn decode_request(raw: RawRequest) -> (r: Result<AppRequest, TranslatorError>)
    ensures
        decode_result_view(r) == spec_decode(raw@),
{
    let method = if str_eq(raw.method.as_str(), "GET") {
        Method::GET
    } else if str_eq(raw.method.as_str(), "POST") {
        Method::POST
    } else if str_eq(raw.method.as_str(), "PUT") {
        Method::PUT
    } else if str_eq(raw.method.as_str(), "DELETE") {
        Method::DELETE
    } else {
        return Err(TranslatorError::InvalidMethod);
    };
    let headers = match decode_headers(&raw.headers) {
        Ok(h) => h,
        Err(e) => {
            return Err(e);
        },
    };
    let body: Option<String> = if let Method::GET = method {
        None
    } else {
        match raw.body {
            None => None,
            Some(bytes) => match utf8_to_string(&bytes) {
                Some(s) => Some(s),
                None => {
                    return Err(TranslatorError::InvalidBody);
                },
            },
        }
    };
    let req = AppRequest { method, path: raw.path, headers, body };
    proof {
        assert(req@ =~= spec_decode(raw@)->Ok_0);
    }
    Ok(req)
}

/// Decodes a raw request that transport-level dispatch already knows to be a
/// GET: the body is never read, the headers must be text.
pub fn get_req_to_app(raw: RawRequest) -> (r: Result<AppRequest, TranslatorError>)
    ensures
        decode_result_view(r) == spec_decode_get(raw@),
{
    let headers = match decode_headers(&raw.headers) {
        Ok(h) => h,
        Err(e) => {
            return Err(e);
        },
    };
    let req = AppRequest { method: Method::GET, path: raw.path, headers, body: None };
    proof {
        assert(req@ =~= spec_decode_get(raw@)->Ok_0);
    }
    Ok(req)
}

/// Decodes a raw request for the payload-carrying methods; a GET token or
/// any unknown token is rejected, then headers, then the body.
pub fn req_to_app(raw: RawRequest) -> (r: Result<AppRequest, TranslatorError>)
    ensures
        decode_result_view(r) == spec_decode_other(raw@),
{
    let method = if str_eq(raw.method.as_str(), "POST") {
        Method::POST
    } else if str_eq(raw.method.as_str(), "DELETE") {
        Method::DELETE
    } else if str_eq(raw.method.as_str(), "PUT") {
        Method::PUT
    } else {
        return Err(TranslatorError::InvalidMethod);
    };
    let headers = match decode_headers(&raw.headers) {
        Ok(h) => h,
        Err(e) => {
            return Err(e);
        },
    };
    let body: Option<String> = match raw.body {
        None => None,
        Some(bytes) => match utf8_to_string(&bytes) {
            Some(s) => Some(s),
            None => {
                return Err(TranslatorError::InvalidBody);
            },
        },
    };
    let req = AppRequest { method, path: raw.path, headers, body };
    proof {
        assert(req@ =~= spec_decode_other(raw@)->Ok_0);
    }
    Ok(req)
}

// ---------------------------------------------------------------------------
// Encoding
// ---------------------------------------------------------------------------

/// The wire status code of an internal status.
pub open spec fn spec_status_code(c: StatusCode) -> u16 {
    match c {
        StatusCode::OK => 200,
        StatusCode::NOTFOUND => 404,
    }
}

/// The header pairs the wire format can represent, in order; a pair the
/// format refuses is dropped silently.
pub open spec fn spec_encode_headers(hs: Seq<(Seq<char>, Seq<char>)>) -> Seq<
    (Seq<char>, Seq<char>),
>
    decreases hs.len(),
{
    if hs.len() == 0 {
        Seq::empty()
    } else {
        let rest = spec_encode_headers(hs.drop_last());
        if valid_header_name(hs.last().0) && valid_header_value(hs.last().1) {
            rest.push(hs.last())
        } else {
            rest
        }
    }
}

/// The encode contract: the status is mapped to its wire code, headers the
/// wire format refuses are dropped, and an absent body encodes as an empty
/// payload.
pub open spec fn spec_encode(r: RespView) -> RawRespView {
    RawRespView {
        status: spec_status_code(r.code),
        headers: spec_encode_headers(r.headers),
        body: match r.body {
            Some(s) => encode_utf8(s),
            None => Seq::empty(),
        },
    }
}

/// The response content for a fixed status and body, with no headers.
pub open spec fn fixed_resp(cb: (StatusCode, Seq<char>)) -> RespView {
    RespView { code: cb.0, headers: Seq::empty(), body: Some(cb.1) }
}

/// The content of the uniform not-found response.
pub open spec fn not_found_view() -> RespView {
    fixed_resp((StatusCode::NOTFOUND, "404!"@))
}

/// Encodes an internal response as a raw response.
fn encode_response(res: AppResponse) -> (w: RawResponse)
    ensures
        w@ == spec_encode(res@),
{
    let status: u16 = match res.code {
        StatusCode::OK => 200,
        StatusCode::NOTFOUND => 404,
    };
    let hs = res.headers;
    let mut headers: Vec<(String, String)> = Vec::new();
    let mut i: usize = 0;
    while i < hs.len()
        invariant
            i <= hs.len(),
            hview(headers@) == spec_encode_headers(hview(hs@).take(i as int)),
        decreases hs.len() - i,
    {
        let keep = header_name_ok(hs[i].0.as_str()) && header_value_ok(hs[i].1.as_str());
        proof {
            let hv = hview(hs@);
            assert(hv.take(i + 1).drop_last() =~= hv.take(i as int));
            assert(hv.take(i + 1).last() == hv[i as int]);
        }
        if keep {
            let name = hs[i].0.clone();
            let val = hs[i].1.clone();
            headers.push((name, val));
            proof {
                assert(hview(headers@) =~= spec_encode_headers(
                    hview(hs@).take(i as int),
                ).push(hview(hs@)[i as int]));
            }
        }
        i += 1;
    }
    proof {
        assert(hview(hs@).take(hs@.len() as int) =~= hview(hs@));
    }
    let body: Vec<u8> = match res.body {
        Some(s) => s.as_str().as_bytes_vec(),
        None => Vec::new(),
    };
    let w = RawResponse { status, headers, body };
    proof {
        assert(w@ =~= spec_encode(res@));
    }
    w
}

/// Encodes a router outcome, turning any translator error into the uniform
/// not-found response.
pub fn app_to_res(res: Result<AppResponse, TranslatorError>) -> (w: RawResponse)
    ensures
        match res {
            Ok(r) => w@ == spec_encode(r@),
            Err(_) => w@ == spec_encode(not_found_view()),
        },
{
    match res {
        Ok(r) => encode_response(r),
        Err(_) => {
            let nf = handle_404();
            proof {
                assert(nf@ =~= not_found_view());
            }
            encode_response(nf)
        },
    }
}

// ---------------------------------------------------------------------------
// The request pipelines
// ---------------------------------------------------------------------------

/// The GET pipeline: decode, route, encode; a decode failure falls closed to
/// the uniform not-found response.
pub fn get_try_app(raw: RawRequest) -> (w: RawResponse)
    ensures
        match spec_decode_get(raw@) {
            Err(_) => w@ == spec_encode(not_found_view()),
            Ok(q) => match spec_response(q.method, q.path, q.body) {
                Some(cb) => w@ == spec_encode(fixed_resp(cb)),
                None => w@.status == 200 && w@.headers.len() == 0,
            },
        },
{
    let ghost rv = raw@;
    match get_req_to_app(raw) {
        Ok(req) => {
            let res = router(req);
            proof {
                let q = spec_decode_get(rv)->Ok_0;
                match spec_response(q.method, q.path, q.body) {
                    Some(cb) => {
                        assert(res@ =~= fixed_resp(cb));
                    },
                    None => {
                        assert(res@.headers =~= Seq::<(Seq<char>, Seq<char>)>::empty());
                    },
                }
            }
            app_to_res(Ok(res))
        },
        Err(e) => app_to_res(Err(e)),
    }
}

/// The pipeline for the payload-carrying methods: decode, route, encode; a
/// decode failure falls closed to the uniform not-found response.  No route
/// outside GET answers nondeterministically, so the wire output is a
/// function of the raw request.
pub fn try_app(raw: RawRequest) -> (w: RawResponse)
    ensures
        match spec_decode_other(raw@) {
            Err(_) => w@ == spec_encode(not_found_view()),
            Ok(q) => spec_response(q.method, q.path, q.body) matches Some(cb) && w@ == spec_encode(
                fixed_resp(cb),
            ),
        },
{
    let ghost rv = raw@;
    match req_to_app(raw) {
        Ok(req) => {
            let res = router(req);
            proof {
                let q = spec_decode_other(rv)->Ok_0;
                assert(q.method != Method::GET);
                match spec_response(q.method, q.path, q.body) {
                    Some(cb) => {
                        assert(res@ =~= fixed_resp(cb));
                    },
                    None => {},
                }
            }
            app_to_res(Ok(res))
        },
        Err(e) => app_to_res(Err(e)),
    }
}

// ---------------------------------------------------------------------------
// Encoding a request as raw transport input
// ---------------------------------------------------------------------------

/// The token naming a method on the wire.
pub open spec fn method_token(m: Method) -> Seq<char> {
    match m {
        Method::GET => "GET"@,
        Method::POST => "POST"@,
        Method::PUT => "PUT"@,
        Method::DELETE => "DELETE"@,
    }
}

/// The raw form of an internal request: the method token, the path, and the
/// headers and body as their UTF-8 bytes.
pub open spec fn spec_encode_request(q: ReqView) -> RawReqView {
    RawReqView {
        method: method_token(q.method),
        path: q.path,
        headers: Seq::new(q.headers.len(), |k: int| (q.headers[k].0, encode_utf8(q.headers[k].1))),
        body: match q.body {
            Some(s) => Some(encode_utf8(s)),
            None => None,
        },
    }
}

/// Renders an internal request as the raw transport request that carries it.
pub fn encode_request(req: &AppRequest) -> (raw: RawRequest)
    ensures
        raw@ == spec_encode_request(req@),
{
    let method: String = match req.method {
        Method::GET => String::from_str("GET"),
        Method::POST => String::from_str("POST"),
        Method::PUT => String::from_str("PUT"),
        Method::DELETE => String::from_str("DELETE"),
    };
    let path = req.path.clone();
    let mut headers: Vec<(String, Vec<u8>)> = Vec::new();
    let mut i: usize = 0;
    while i < req.headers.len()
        invariant
            i <= req.headers.len(),
            headers@.len() == i,
            forall|k: int|
                0 <= k < i ==> (#[trigger] headers@[k]).0@ == req.headers@[k].0@ && headers@[k].1@
                    == encode_utf8(req.headers@[k].1@),
        decreases req.headers.len() - i,
    {
        let name = req.headers[i].0.clone();
        let bytes = req.headers[i].1.as_str().as_bytes_vec();
        headers.push((name, bytes));
        i += 1;
    }
    let body: Option<Vec<u8>> = match &req.body {
        Some(s) => Some(s.as_str().as_bytes_vec()),
        None => None,
    };
    let raw = RawRequest { method, path, headers, body };
    proof {
        assert(raw@ =~= spec_encode_request(req@));
    }
    raw
}

// ---------------------------------------------------------------------------
// Laws of the translator
// ---------------------------------------------------------------------------

/// Decoding the raw form of a valid internal request gives that request
/// back: the translator loses nothing on the valid path.
pub proof fn lemma_decode_encode_round_trip(q: ReqView)
    requires
        q.wf(),
    ensures
        spec_decode(spec_encode_request(q)) == Ok::<ReqView, TranslatorError>(q),
{
    reveal_strlit("GET");
    reveal_strlit("POST");
    reveal_strlit("PUT");
    reveal_strlit("DELETE");
    broadcast use vstd::utf8::encode_utf8_valid_utf8;
    broadcast use vstd::utf8::encode_utf8_decode_utf8;

    let rv = spec_encode_request(q);
    match q.method {
        Method::GET => {
            assert(method_token(q.method) == "GET"@);
        },
        Method::POST => {
            assert("POST"@ != "GET"@) by {
                assert("POST"@.len() == 4 && "GET"@.len() == 3);
            }
        },
        Method::PUT => {
            assert("PUT"@ != "GET"@) by {
                assert("PUT"@[0] == 'P' && "GET"@[0] == 'G');
            }
            assert("PUT"@ != "POST"@) by {
                assert("PUT"@.len() == 3 && "POST"@.len() == 4);
            }
        },
        Method::DELETE => {
            assert("DELETE"@ != "GET"@) by {
                assert("DELETE"@.len() == 6 && "GET"@.len() == 3);
            }
            assert("DELETE"@ != "POST"@) by {
                assert("DELETE"@.len() == 6 && "POST"@.len() == 4);
            }
            assert("DELETE"@ != "PUT"@) by {
                assert("DELETE"@.len() == 6 && "PUT"@.len() == 3);
            }
        },
    }
    assert(spec_method_of(method_token(q.method)) == Some(q.method));
    assert forall|k: int| 0 <= k < rv.headers.len() implies valid_utf8(
        (#[trigger] rv.headers[k]).1,
    ) by {
        assert(rv.headers[k].1 == encode_utf8(q.headers[k].1));
    }
    assert(decoded_headers(rv.headers) =~= q.headers) by {
        assert forall|k: int| 0 <= k < rv.headers.len() implies decoded_headers(rv.headers)[k]
            == q.headers[k] by {
            assert(rv.headers[k].1 == encode_utf8(q.headers[k].1));
            assert(decode_utf8(encode_utf8(q.headers[k].1)) == q.headers[k].1);
        }
    }
    match q.body {
        Some(s) => {
            assert(valid_utf8(encode_utf8(s)));
            assert(decode_utf8(encode_utf8(s)) == s);
        },
        None => {},
    }
    assert(spec_decode(rv)->Ok_0 =~= q);
}

/// A request that comes out of any decoder as a GET never carries a body,
/// whatever the raw transport request supplied: every request the
/// translator admits satisfies the internal well-formedness invariant.
pub proof fn lemma_get_never_carries_body(rv: RawReqView)
    ensures
        match spec_decode(rv) {
            Ok(q) => q.wf() && (q.method == Method::GET ==> q.body is None),
            Err(_) => true,
        },
        match spec_decode_get(rv) {
            Ok(q) => q.body is None,
            Err(_) => true,
        },
        match spec_decode_other(rv) {
            Ok(q) => q.method != Method::GET,
            Err(_) => true,
        },
{
}

/// Encoding is a pure function of the response content: the contract of
/// `app_to_res` pins its output to `spec_encode`, so two encodings of the
/// same internal response are identical wire responses.
pub proof fn lemma_encode_repeatable(r: RespView, w1: RawRespView, w2: RawRespView)
    requires
        w1 == spec_encode(r),
        w2 == spec_encode(r),
    ensures
        w1 == w2,
{
}

} // verus!
