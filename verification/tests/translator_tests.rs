use edge_router::app::AppRequest;
use edge_router::app::AppResponse;
use edge_router::app::Method;
use edge_router::app::StatusCode;
use edge_router::translator::RawRequest;
use edge_router::translator::TranslatorError;
use edge_router::translator::app_to_res;
use edge_router::translator::decode_request;
use edge_router::translator::encode_request;
use edge_router::translator::get_try_app;
use edge_router::translator::try_app;

fn raw(method: &str, path: &str, headers: Vec<(&str, &[u8])>, body: Option<&[u8]>) -> RawRequest {
    RawRequest {
        method: method.to_string(),
        path: path.to_string(),
        headers: headers
            .into_iter()
            .map(|(n, v)| (n.to_string(), v.to_vec()))
            .collect(),
        body: body.map(|b| b.to_vec()),
    }
}

fn body_text(bytes: Vec<u8>) -> String {
    String::from_utf8(bytes).unwrap()
}

#[test]
fn main_sum() {
    let req = raw("POST", "/sum", vec![], Some(br#"{"a":10,"b":20}"#));

    let res = try_app(req);

    assert_eq!(body_text(res.body), "Sum = 30");
}

#[test]
fn main_health() {
    let req = raw("GET", "/health", vec![], None);

    let res = get_try_app(req);

    assert_eq!(body_text(res.body), "ok!");
}

#[test]
fn translator_sum() {
    let req = raw(
        "POST",
        "/sum",
        vec![("content-type", b"application/json")],
        Some(br#"{"a":3,"b":4}"#),
    );

    let res = try_app(req);

    assert_eq!(body_text(res.body), "Sum = 7");
}

#[test]
fn translator_health() {
    let req = raw("GET", "/health", vec![], None);

    let res = get_try_app(req);

    assert_eq!(body_text(res.body), "ok!");
}

#[test]
fn translator_invalid_route() {
    let req = raw("GET", "/invalid", vec![], None);

    let res = get_try_app(req);

    assert_eq!(body_text(res.body), "404!");
}

#[test]
fn invalid_json() {
    let req = raw("POST", "/sum", vec![], Some(b"whatever"));

    let res = try_app(req);

    assert_eq!(body_text(res.body), "404!");
}

#[test]
fn wire_status_codes() {
    let ok = get_try_app(raw("GET", "/", vec![], None));
    assert_eq!(ok.status, 200);
    assert_eq!(body_text(ok.body), "ok!");

    let missing = get_try_app(raw("GET", "/nowhere", vec![], None));
    assert_eq!(missing.status, 404);
    assert_eq!(body_text(missing.body), "404!");

    let time = get_try_app(raw("GET", "/time", vec![], None));
    assert_eq!(time.status, 200);
    assert!(!time.body.is_empty());
}

#[test]
fn unknown_method_is_rejected() {
    let res = try_app(raw("PATCH", "/sum", vec![], Some(b"{}")));
    assert_eq!(res.status, 404);
    assert_eq!(body_text(res.body), "404!");
}

#[test]
fn put_and_delete_fall_through() {
    for m in ["PUT", "DELETE"] {
        let res = try_app(raw(m, "/health", vec![], Some(b"")));
        assert_eq!(res.status, 404);
        assert_eq!(body_text(res.body), "404!");
    }
}

#[test]
fn post_without_body_is_not_found() {
    let res = try_app(raw("POST", "/sum", vec![], None));
    assert_eq!(res.status, 404);
    assert_eq!(body_text(res.body), "404!");
}

#[test]
fn invalid_header_bytes_reject_the_request() {
    let res = try_app(raw(
        "POST",
        "/sum",
        vec![("x-raw", &[0xff, 0xfe])],
        Some(br#"{"a":1,"b":2}"#),
    ));
    assert_eq!(res.status, 404);
    assert_eq!(body_text(res.body), "404!");

    let res = get_try_app(raw("GET", "/health", vec![("x-raw", &[0xff])], None));
    assert_eq!(res.status, 404);
    assert_eq!(body_text(res.body), "404!");
}

#[test]
fn invalid_body_bytes_reject_the_request() {
    let res = try_app(raw("POST", "/sum", vec![], Some(&[0xff, 0xfe, 0xfd])));
    assert_eq!(res.status, 404);
    assert_eq!(body_text(res.body), "404!");
}

#[test]
fn get_pipeline_ignores_a_supplied_body() {
    let res = get_try_app(raw("GET", "/", vec![], Some(b"ignored")));
    assert_eq!(res.status, 200);
    assert_eq!(body_text(res.body), "ok!");
}

#[test]
fn decode_checks_method_before_headers() {
    let r = decode_request(raw("PATCH", "/x", vec![("h", &[0xff])], None));
    assert_eq!(r.unwrap_err(), TranslatorError::InvalidMethod);
}

#[test]
fn decode_checks_headers_before_body() {
    let r = decode_request(raw(
        "POST",
        "/sum",
        vec![("h", &[0xff])],
        Some(&[0xff]),
    ));
    assert_eq!(r.unwrap_err(), TranslatorError::InvalidHeaders);
}

#[test]
fn decode_reports_invalid_body() {
    let r = decode_request(raw("POST", "/sum", vec![], Some(&[0xff])));
    assert_eq!(r.unwrap_err(), TranslatorError::InvalidBody);
}

#[test]
fn decode_strips_a_get_body() {
    let r = decode_request(raw("GET", "/", vec![], Some(b"ignored"))).unwrap();
    assert_eq!(r.method, Method::GET);
    assert_eq!(r.body, None);
}

#[test]
fn decode_keeps_header_order_and_duplicates() {
    let r = decode_request(raw(
        "POST",
        "/x",
        vec![("x-a", b"1"), ("x-b", b"2"), ("x-a", b"1")],
        None,
    ))
    .unwrap();
    let got: Vec<(String, String)> = r.headers;
    assert_eq!(
        got,
        vec![
            ("x-a".to_string(), "1".to_string()),
            ("x-b".to_string(), "2".to_string()),
            ("x-a".to_string(), "1".to_string()),
        ]
    );
}

#[test]
fn round_trip_post() {
    let req = AppRequest {
        method: Method::POST,
        path: "/sum".to_string(),
        headers: vec![
            ("content-type".to_string(), "application/json".to_string()),
            ("x-mark".to_string(), "caf\u{e9}".to_string()),
        ],
        body: Some(r#"{"a":5,"b":7}"#.to_string()),
    };
    let raw = encode_request(&req);
    let back = decode_request(raw).unwrap();
    assert_eq!(back, req);
}

#[test]
fn round_trip_get() {
    let req = AppRequest {
        method: Method::GET,
        path: "/health".to_string(),
        headers: vec![("x-probe".to_string(), "live".to_string())],
        body: None,
    };
    let raw = encode_request(&req);
    let back = decode_request(raw).unwrap();
    assert_eq!(back, req);
}

#[test]
fn encoding_is_repeatable() {
    let res = AppResponse {
        code: StatusCode::OK,
        headers: vec![("x-tag".to_string(), "v1".to_string())],
        body: Some("payload".to_string()),
    };
    let w1 = app_to_res(Ok(res.clone()));
    let w2 = app_to_res(Ok(res));
    assert_eq!(w1, w2);
}

#[test]
fn encode_drops_headers_the_wire_refuses() {
    let res = AppResponse {
        code: StatusCode::OK,
        headers: vec![
            ("x-keep".to_string(), "yes".to_string()),
            ("bad name".to_string(), "v".to_string()),
            ("x-ctl".to_string(), "bad\nvalue".to_string()),
            ("x-also".to_string(), "fine".to_string()),
        ],
        body: None,
    };
    let w = app_to_res(Ok(res));
    assert_eq!(w.status, 200);
    assert_eq!(
        w.headers,
        vec![
            ("x-keep".to_string(), "yes".to_string()),
            ("x-also".to_string(), "fine".to_string()),
        ]
    );
    assert!(w.body.is_empty());
}

#[test]
fn encode_maps_statuses_and_absent_bodies() {
    let w = app_to_res(Ok(AppResponse {
        code: StatusCode::NOTFOUND,
        headers: vec![],
        body: None,
    }));
    assert_eq!(w.status, 404);
    assert_eq!(w.body, Vec::<u8>::new());

    let w = app_to_res(Err(TranslatorError::InvalidBody));
    assert_eq!(w.status, 404);
    assert_eq!(body_text(w.body), "404!");
}
