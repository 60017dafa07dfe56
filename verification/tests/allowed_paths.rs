use cloudflare_access_webhook_redirect::config::AllowedMethod;
use cloudflare_access_webhook_redirect::data::{AllowedPath, AllowedPaths, Route, WebHookData};
use cloudflare_access_webhook_redirect::error::Error;

fn paths(entries: &[(&str, &[AllowedMethod])]) -> AllowedPaths {
    AllowedPaths::from_config(
        entries
            .iter()
            .map(|(pattern, methods)| (pattern.to_string(), methods.to_vec()))
            .collect(),
    )
    .unwrap()
}

#[test]
fn a_pattern_is_anchored_at_both_ends() {
    let allowed = paths(&[("/test/", &[AllowedMethod::ALL])]);
    assert!(allowed.is_allowed("/test/", "GET"));
    assert!(!allowed.is_allowed("/d/test/d", "GET"));
    assert!(!allowed.is_allowed("/test/d", "GET"));
    assert!(!allowed.is_allowed("/d/test/", "GET"));
}

#[test]
fn an_alternation_stays_inside_the_anchors() {
    let allowed = paths(&[("a|b", &[AllowedMethod::ALL])]);
    assert!(allowed.is_allowed("a", "GET"));
    assert!(allowed.is_allowed("b", "GET"));
    assert!(!allowed.is_allowed("ab", "GET"));
    assert!(!allowed.is_allowed("xa", "GET"));
    assert!(!allowed.is_allowed("bx", "GET"));
}

#[test]
fn a_regex_pattern_matches_the_paths_it_describes() {
    let allowed = paths(&[(r"test/\d*", &[AllowedMethod::ALL])]);
    assert!(allowed.is_allowed("test/10090", "PUT"));
    assert!(allowed.is_allowed("test/9", "PUT"));
    assert!(allowed.is_allowed("test/", "PUT"));
    assert!(!allowed.is_allowed("test/d", "GET"));
    assert!(!allowed.is_allowed("test/90d", "GET"));
}

#[test]
fn one_matching_pattern_that_allows_the_method_is_enough() {
    let allowed = paths(&[
        ("/api/.*", &[AllowedMethod::GET]),
        ("/api/public/.*", &[AllowedMethod::POST]),
    ]);
    assert!(allowed.is_allowed("/api/public/x", "POST"));
    assert!(allowed.is_allowed("/api/public/x", "GET"));
    assert!(allowed.is_allowed("/api/private", "GET"));
    assert!(!allowed.is_allowed("/api/private", "POST"));
    assert!(!allowed.is_allowed("/other", "GET"));
}

#[test]
fn a_method_is_compared_by_its_exact_name() {
    let allowed = paths(&[("/hook", &[AllowedMethod::POST])]);
    assert!(allowed.is_allowed("/hook", "POST"));
    assert!(!allowed.is_allowed("/hook", "post"));
    assert!(!allowed.is_allowed("/hook", "GET"));
}

#[test]
fn an_invalid_pattern_is_a_regex_error() {
    let error = AllowedPaths::from_config(vec![("/broken/(".to_string(), vec![AllowedMethod::ALL])])
        .err()
        .expect("an unclosed group does not compile");
    assert!(matches!(error, Error::Regex(_)));
    assert!(!error.message().is_empty());
}

#[test]
fn a_pattern_that_only_compiles_once_wrapped_is_refused() {
    let error = AllowedPaths::from_config(vec![("a)|(b".to_string(), vec![AllowedMethod::ALL])])
        .err()
        .expect("the pattern is not a regex on its own");
    assert!(matches!(error, Error::Regex(_)));
}

#[test]
fn the_entries_are_kept_as_configured() {
    let allowed = AllowedPaths::new(vec![(
        "/webhook/[a-z]{2}; ?:[0-9]*".to_string(),
        AllowedPath::from_methods(vec![AllowedMethod::GET, AllowedMethod::POST]),
    )])
    .unwrap();
    let entries = allowed.allowed_paths();
    assert_eq!(entries.len(), 1);
    assert_eq!(entries[0].0, "/webhook/[a-z]{2}; ?:[0-9]*");
    assert_eq!(entries[0].1.methods(), &vec![AllowedMethod::GET, AllowedMethod::POST]);
    assert!(allowed.is_allowed("/webhook/ab; :12", "GET"));
}

#[test]
fn no_patterns_admit_nothing() {
    let allowed = AllowedPaths::from_config(vec![]).unwrap();
    assert!(!allowed.is_allowed("/", "GET"));
}

fn web_hook_data(base: &str, id: &str, secret: &str) -> Result<WebHookData, Error> {
    WebHookData::new(
        reqwest::Client::new(),
        reqwest::Url::parse(base).unwrap(),
        paths(&[("test", &[AllowedMethod::GET])]),
        id,
        secret,
    )
}

#[test]
fn the_credentials_become_header_values() {
    let data = web_hook_data("https://example.com/", "access-id", "access-secret").unwrap();
    assert_eq!(data.access_id(), &b"access-id".to_vec());
    assert_eq!(data.access_secret(), &b"access-secret".to_vec());
    assert_eq!(data.target_base().as_str(), "https://example.com/");
}

#[test]
fn a_credential_that_is_not_a_header_value_is_refused() {
    let error = web_hook_data("https://example.com/", "access\nid", "access-secret")
        .err()
        .expect("a newline cannot travel in a header");
    assert!(matches!(error, Error::Custom(_)));
    assert!(error.message().contains("client id"));

    let error = web_hook_data("https://example.com/", "access-id", "secret\u{7f}")
        .err()
        .expect("DEL cannot travel in a header");
    assert!(error.message().contains("client secret"));
}

#[test]
fn the_target_url_joins_the_path_onto_the_base() {
    let data = web_hook_data("http://127.0.0.1:8081", "id", "secret").unwrap();
    assert_eq!(
        data.get_target_url("test").unwrap().as_str(),
        "http://127.0.0.1:8081/test"
    );
    let data = web_hook_data("https://example.com/api/", "id", "secret").unwrap();
    assert_eq!(
        data.get_target_url("hook").unwrap().as_str(),
        "https://example.com/api/hook"
    );
}

#[test]
fn a_refused_request_is_not_found_and_an_admitted_one_is_forwarded() {
    let data = web_hook_data("http://127.0.0.1:8081", "id", "secret").unwrap();
    assert!(matches!(data.route("test/d", "GET"), Route::NotFound));
    assert!(matches!(data.route("test", "PUT"), Route::NotFound));
    match data.route("test", "GET") {
        Route::Forward(url) => assert_eq!(url.as_str(), "http://127.0.0.1:8081/test"),
        _ => panic!("an allowed request is forwarded"),
    }
    assert!(data.is_allowed_path("test", "GET"));
    assert!(!data.is_allowed_path("test", "DELETE"));
}

#[test]
fn an_admitted_path_that_will_not_join_is_a_bad_request() {
    let data = web_hook_data("mailto:someone@example.com", "id", "secret").unwrap();
    match data.route("test", "GET") {
        Route::BadRequest(error) => {
            assert!(matches!(error, Error::Custom(_)));
            assert!(error.message().starts_with("Can't join the target URL: "), "{error:?}");
        }
        _ => panic!("a base that cannot be a base joins nothing"),
    }
}

#[test]
fn the_credentials_are_appended_after_the_inbound_headers() {
    let data = web_hook_data("http://127.0.0.1:8081", "id", "secret").unwrap();
    let inbound = vec![
        ("test".to_string(), b"value".to_vec()),
        ("host".to_string(), b"localhost".to_vec()),
    ];
    let outbound = data.forward_headers(&inbound);
    assert_eq!(
        outbound,
        vec![
            ("test".to_string(), b"value".to_vec()),
            ("cf-access-client-id".to_string(), b"id".to_vec()),
            ("cf-access-client-secret".to_string(), b"secret".to_vec()),
        ]
    );
}
