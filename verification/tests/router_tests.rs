use edge_router::app::AppRequest;
use edge_router::app::AppResponse;
use edge_router::app::Method;
use edge_router::app::StatusCode;
use edge_router::app::router;

fn req_helper(method: Method, path: &str, body: Option<&str>) -> AppRequest {
    AppRequest {
        method,
        path: path.to_string(),
        headers: vec![],
        body: body.map(|s| s.to_string()),
    }
}

fn body_of(res: AppResponse) -> String {
    res.body.unwrap_or_default()
}

#[test]
fn app_health() {
    let req = req_helper(Method::GET, "/health", None);
    let res = router(req);

    assert!(matches!(res.code, StatusCode::OK));
    assert_eq!(res.body.unwrap_or_default(), "ok!");
}

#[test]
fn app_sum() {
    let req = req_helper(Method::POST, "/sum", Some(r#"{"a":5,"b":7}"#));

    let res = router(req);

    assert!(matches!(res.code, StatusCode::OK));
    assert_eq!(res.body.unwrap_or_default(), "Sum = 12");
}

#[test]
fn sum_fail() {
    let req = req_helper(Method::POST, "/sum", Some("invalid json {}"));
    let res = router(req);

    assert_eq!(res.body.unwrap_or_default(), "404!");
    assert!(matches!(res.code, StatusCode::NOTFOUND));
}

#[test]
fn app_invalid_route() {
    let req = req_helper(Method::GET, "/invalid", None);
    let res = router(req);

    assert_eq!(res.body.unwrap_or_default(), "404!");
    assert!(matches!(res.code, StatusCode::NOTFOUND));
}

#[test]
fn root_is_healthy() {
    let res = router(req_helper(Method::GET, "/", None));
    assert!(matches!(res.code, StatusCode::OK));
    assert_eq!(body_of(res), "ok!");
}

#[test]
fn time_returns_some_text() {
    let res = router(req_helper(Method::GET, "/time", None));
    assert!(matches!(res.code, StatusCode::OK));
    assert!(res.body.is_some());
}

#[test]
fn unrouted_methods_fall_through() {
    for method in [Method::PUT, Method::DELETE] {
        let res = router(req_helper(method, "/health", Some("x")));
        assert!(matches!(res.code, StatusCode::NOTFOUND));
        assert_eq!(body_of(res), "404!");
    }
}

#[test]
fn unrouted_paths_fall_through() {
    let res = router(req_helper(Method::POST, "/health", Some("{}")));
    assert!(matches!(res.code, StatusCode::NOTFOUND));
    assert_eq!(body_of(res), "404!");

    let res = router(req_helper(Method::GET, "/sum", None));
    assert!(matches!(res.code, StatusCode::NOTFOUND));
    assert_eq!(body_of(res), "404!");
}

#[test]
fn sum_absent_body() {
    let res = router(req_helper(Method::POST, "/sum", None));
    assert!(matches!(res.code, StatusCode::NOTFOUND));
    assert_eq!(body_of(res), "404!");
}

#[test]
fn sum_empty_body() {
    let res = router(req_helper(Method::POST, "/sum", Some("")));
    assert!(matches!(res.code, StatusCode::NOTFOUND));
    assert_eq!(body_of(res), "404!");
}

#[test]
fn sum_members_in_either_order() {
    let res = router(req_helper(Method::POST, "/sum", Some(r#"{"b":7,"a":5}"#)));
    assert!(matches!(res.code, StatusCode::OK));
    assert_eq!(body_of(res), "Sum = 12");
}

#[test]
fn sum_negative_values() {
    let res = router(req_helper(Method::POST, "/sum", Some(r#"{"a":-5,"b":3}"#)));
    assert!(matches!(res.code, StatusCode::OK));
    assert_eq!(body_of(res), "Sum = -2");
}

#[test]
fn sum_with_whitespace() {
    let res = router(req_helper(
        Method::POST,
        "/sum",
        Some(" { \"a\" :\t5 ,\n\"b\" : 7 } "),
    ));
    assert!(matches!(res.code, StatusCode::OK));
    assert_eq!(body_of(res), "Sum = 12");
}

#[test]
fn sum_ignores_extra_members() {
    let res = router(req_helper(
        Method::POST,
        "/sum",
        Some(r#"{"a":1,"note":"x","flag":true,"gap":null,"b":2}"#),
    ));
    assert!(matches!(res.code, StatusCode::OK));
    assert_eq!(body_of(res), "Sum = 3");
}

#[test]
fn sum_rejects_duplicate_member() {
    let res = router(req_helper(Method::POST, "/sum", Some(r#"{"a":1,"a":2,"b":3}"#)));
    assert!(matches!(res.code, StatusCode::NOTFOUND));
    assert_eq!(body_of(res), "404!");
}

#[test]
fn sum_rejects_missing_member() {
    let res = router(req_helper(Method::POST, "/sum", Some(r#"{"a":5}"#)));
    assert!(matches!(res.code, StatusCode::NOTFOUND));
    assert_eq!(body_of(res), "404!");
}

#[test]
fn sum_rejects_wrong_type() {
    let res = router(req_helper(Method::POST, "/sum", Some(r#"{"a":"5","b":7}"#)));
    assert!(matches!(res.code, StatusCode::NOTFOUND));
    assert_eq!(body_of(res), "404!");
}

#[test]
fn sum_rejects_leading_zero() {
    let res = router(req_helper(Method::POST, "/sum", Some(r#"{"a":01,"b":2}"#)));
    assert!(matches!(res.code, StatusCode::NOTFOUND));
    assert_eq!(body_of(res), "404!");
}

#[test]
fn sum_rejects_float() {
    let res = router(req_helper(Method::POST, "/sum", Some(r#"{"a":1.5,"b":2}"#)));
    assert!(matches!(res.code, StatusCode::NOTFOUND));
    assert_eq!(body_of(res), "404!");
}

#[test]
fn sum_rejects_value_out_of_range() {
    let res = router(req_helper(Method::POST, "/sum", Some(r#"{"a":2147483648,"b":0}"#)));
    assert!(matches!(res.code, StatusCode::NOTFOUND));
    assert_eq!(body_of(res), "404!");
}

#[test]
fn sum_rejects_trailing_garbage() {
    let res = router(req_helper(Method::POST, "/sum", Some(r#"{"a":1,"b":2} x"#)));
    assert!(matches!(res.code, StatusCode::NOTFOUND));
    assert_eq!(body_of(res), "404!");
}

#[test]
fn sum_extremes_widen() {
    let res = router(req_helper(
        Method::POST,
        "/sum",
        Some(r#"{"a":2147483647,"b":2147483647}"#),
    ));
    assert!(matches!(res.code, StatusCode::OK));
    assert_eq!(body_of(res), "Sum = 4294967294");

    let res = router(req_helper(
        Method::POST,
        "/sum",
        Some(r#"{"a":-2147483648,"b":-2147483648}"#),
    ));
    assert!(matches!(res.code, StatusCode::OK));
    assert_eq!(body_of(res), "Sum = -4294967296");
}

#[test]
fn health_ignores_headers_and_body() {
    let req = AppRequest {
        method: Method::GET,
        path: "/health".to_string(),
        headers: vec![("x-anything".to_string(), "whatever".to_string())],
        body: None,
    };
    let res = router(req);
    assert!(matches!(res.code, StatusCode::OK));
    assert_eq!(body_of(res), "ok!");
}
