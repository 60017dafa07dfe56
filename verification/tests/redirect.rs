use cloudflare_access_webhook_redirect::config::AllowedMethod;
use cloudflare_access_webhook_redirect::error::Error;
use cloudflare_access_webhook_redirect::routes::redirect::{
    plan, propagate_headers, propagate_trace, query_params, ForwardPlan, ReqwestBuilder,
};

#[test]
fn only_post_put_and_patch_carry_the_body() {
    for (name, method, body) in [
        ("GET", AllowedMethod::GET, false),
        ("POST", AllowedMethod::POST, true),
        ("PUT", AllowedMethod::PUT, true),
        ("PATCH", AllowedMethod::PATCH, true),
        ("DELETE", AllowedMethod::DELETE, false),
    ] {
        assert_eq!(
            plan(name).unwrap(),
            ForwardPlan {
                method,
                include_body: body,
                include_params: true
            }
        );
    }
}

#[test]
fn any_other_method_is_an_invalid_route() {
    for name in ["OPTIONS", "HEAD", "ALL", "get", ""] {
        match plan(name) {
            Err(Error::InvalidRoute(route)) => assert_eq!(route, name),
            other => panic!("{name} is not routed, got {other:?}"),
        }
    }
}

fn builder<'a>(client: &'a reqwest::Client, method: &'a str) -> ReqwestBuilder<'a> {
    ReqwestBuilder::new(
        client,
        reqwest::Url::parse("http://127.0.0.1:9/test").unwrap(),
        reqwest::Body::from("foo"),
        {
            let mut headers = reqwest::header::HeaderMap::new();
            headers.append("cf-access-client-id", reqwest::header::HeaderValue::from_static("id"));
            headers
        },
        vec![
            ("a".to_string(), "1".to_string()),
            ("b".to_string(), "2".to_string()),
            ("a".to_string(), "3".to_string()),
        ],
        method,
    )
}

#[test]
fn a_routed_method_builds_its_request() {
    let client = reqwest::Client::new();
    for name in ["GET", "POST", "PUT", "PATCH", "DELETE"] {
        let request = builder(&client, name).build().unwrap().build().unwrap();
        assert_eq!(request.method().as_str(), name);
        assert_eq!(request.url().as_str(), "http://127.0.0.1:9/test?a=1&b=2&a=3");
        assert_eq!(request.headers().get("cf-access-client-id").unwrap(), "id");
        let body = request.body().and_then(|b| b.as_bytes()).map(<[u8]>::to_vec);
        if matches!(name, "POST" | "PUT" | "PATCH") {
            assert_eq!(body, Some(b"foo".to_vec()));
        } else {
            assert_eq!(body, None);
        }
    }
}

#[test]
fn an_unrouted_method_builds_nothing() {
    let client = reqwest::Client::new();
    match builder(&client, "OPTIONS").build() {
        Err(Error::InvalidRoute(route)) => assert_eq!(route, "OPTIONS"),
        Err(other) => panic!("unexpected error {other:?}"),
        Ok(_) => panic!("OPTIONS is not routed"),
    }
}

#[test]
fn a_trace_header_overwrites_the_inbound_one() {
    let mut headers = vec![
        ("sentry-trace".to_string(), b"caller".to_vec()),
        ("test".to_string(), b"value".to_vec()),
        ("sentry-trace".to_string(), b"caller-again".to_vec()),
    ];
    let trace = vec![
        ("sentry-trace".to_string(), "this-hop".to_string()),
        ("bad name".to_string(), "skipped".to_string()),
        ("baggage".to_string(), "line\nbreak".to_string()),
    ];
    propagate_headers(&mut headers, &trace);
    assert_eq!(
        headers,
        vec![
            ("test".to_string(), b"value".to_vec()),
            ("sentry-trace".to_string(), b"this-hop".to_vec()),
        ]
    );
}

#[test]
fn no_trace_headers_leave_the_headers_alone() {
    let mut headers = vec![("test".to_string(), b"value".to_vec())];
    propagate_headers(&mut headers, &vec![]);
    assert_eq!(headers, vec![("test".to_string(), b"value".to_vec())]);
}

#[test]
fn without_a_client_the_trace_leaves_the_headers_alone() {
    let mut headers = vec![
        ("sentry-trace".to_string(), b"caller".to_vec()),
        ("test".to_string(), b"value".to_vec()),
    ];
    propagate_trace(&mut headers);
    assert_eq!(
        headers,
        vec![
            ("sentry-trace".to_string(), b"caller".to_vec()),
            ("test".to_string(), b"value".to_vec()),
        ]
    );
}

#[test]
fn the_query_string_keeps_its_order_and_repeated_names() {
    assert_eq!(
        query_params("a=1&b=two%20words&a=3").unwrap(),
        vec![
            ("a".to_string(), "1".to_string()),
            ("b".to_string(), "two words".to_string()),
            ("a".to_string(), "3".to_string()),
        ]
    );
    assert!(query_params("").unwrap().is_empty());
}
