use cloudflare_access_webhook_redirect::config::AllowedMethod;
use cloudflare_access_webhook_redirect::data::{AllowedPath, AllowedPaths};
use cloudflare_access_webhook_redirect::error::Error;

fn test_string_to_allowed_method(input: &String, expected: Option<AllowedMethod>) {
    let method: Result<AllowedMethod, Error> = input.try_into();
    match expected {
        Some(expected) => {
            assert!(method.is_ok());
            assert_eq!(method.unwrap(), expected);
        }
        None => assert!(method.is_err(), "Expected error, got: {method:?}"),
    }
}

fn test_allowed_method_to_http_method(
    allowed_method: AllowedMethod,
    http_method: Option<actix_web::http::Method>,
) {
    let method = allowed_method.to_http_method();
    match http_method {
        Some(expected) => {
            assert!(method.is_ok());
            assert_eq!(method.unwrap(), expected);
        }
        None => assert!(method.is_err()),
    }
}

#[test]
fn test_string_to_allowed_method_upper_case() {
    test_string_to_allowed_method(&"ALL".to_string(), Some(AllowedMethod::ALL));
    test_string_to_allowed_method(&"GET".to_string(), Some(AllowedMethod::GET));
    test_string_to_allowed_method(&"POST".to_string(), Some(AllowedMethod::POST));
    test_string_to_allowed_method(&"PUT".to_string(), Some(AllowedMethod::PUT));
    test_string_to_allowed_method(&"PATCH".to_string(), Some(AllowedMethod::PATCH));
    test_string_to_allowed_method(&"DELETE".to_string(), Some(AllowedMethod::DELETE));
}

#[test]
fn test_string_to_allowed_method_lower_case() {
    test_string_to_allowed_method(&"all".to_string(), Some(AllowedMethod::ALL));
    test_string_to_allowed_method(&"get".to_string(), Some(AllowedMethod::GET));
    test_string_to_allowed_method(&"post".to_string(), Some(AllowedMethod::POST));
    test_string_to_allowed_method(&"put".to_string(), Some(AllowedMethod::PUT));
    test_string_to_allowed_method(&"patch".to_string(), Some(AllowedMethod::PATCH));
    test_string_to_allowed_method(&"delete".to_string(), Some(AllowedMethod::DELETE));
}

#[test]
fn test_string_to_allowed_method_invalid() {
    test_string_to_allowed_method(&"test".to_string(), None);
    test_string_to_allowed_method(&"GETT".to_string(), None);
    test_string_to_allowed_method(&"gett".to_string(), None);
}

#[test]
fn test_map_allowed_method_try_all() {
    let paths = vec![("/test".to_string(), vec![AllowedMethod::ALL])];

    let allowed_paths = AllowedPaths::from_config(paths).unwrap();
    assert!(allowed_paths.is_allowed("/test", actix_web::http::Method::GET.as_str()));
    assert!(allowed_paths.is_allowed("/test", actix_web::http::Method::PUT.as_str()));
}

#[test]
fn test_map_allowed_method_try_get() {
    let paths = vec![("/test".to_string(), vec![AllowedMethod::GET])];

    let allowed_paths = AllowedPaths::from_config(paths).unwrap();
    assert!(allowed_paths.is_allowed("/test", actix_web::http::Method::GET.as_str()));
    assert!(!allowed_paths.is_allowed("/test", actix_web::http::Method::PUT.as_str()));
}

#[test]
fn test_set_allowed_method_try_into_full() {
    let set = vec![
        AllowedMethod::ALL,
        AllowedMethod::GET,
        AllowedMethod::POST,
        AllowedMethod::PUT,
        AllowedMethod::PATCH,
        AllowedMethod::DELETE,
    ];

    let allowed_path = AllowedPath::from_methods(set);
    assert!(allowed_path.all());
    assert_eq!(allowed_path.methods().len(), 5);
}

#[test]
fn test_set_allowed_method_try_into_minimal_no_all() {
    let set = vec![AllowedMethod::GET];

    let allowed_path = AllowedPath::from_methods(set);
    assert!(!allowed_path.all());
    assert_eq!(allowed_path.methods().len(), 1);
    assert!(allowed_path.methods().contains(&AllowedMethod::GET));
}

#[test]
fn test_set_allowed_method_try_into_minimal_with_all() {
    let set = vec![AllowedMethod::ALL];

    let allowed_path = AllowedPath::from_methods(set);
    assert!(allowed_path.all());
    assert_eq!(allowed_path.methods().len(), 0);
}

#[test]
fn test_allowed_method_try_into() {
    test_allowed_method_to_http_method(AllowedMethod::ALL, None);
    test_allowed_method_to_http_method(AllowedMethod::GET, Some(actix_web::http::Method::GET));
    test_allowed_method_to_http_method(AllowedMethod::POST, Some(actix_web::http::Method::POST));
    test_allowed_method_to_http_method(AllowedMethod::PUT, Some(actix_web::http::Method::PUT));
    test_allowed_method_to_http_method(AllowedMethod::PATCH, Some(actix_web::http::Method::PATCH));
    test_allowed_method_to_http_method(AllowedMethod::DELETE, Some(actix_web::http::Method::DELETE));
}

#[test]
fn every_name_parses_back_to_its_method() {
    for method in [
        AllowedMethod::ALL,
        AllowedMethod::GET,
        AllowedMethod::POST,
        AllowedMethod::PUT,
        AllowedMethod::PATCH,
        AllowedMethod::DELETE,
    ] {
        assert_eq!(AllowedMethod::parse(method.name()).unwrap(), method);
        assert_eq!(
            AllowedMethod::parse(&method.name().to_lowercase()).unwrap(),
            method
        );
        assert_eq!(method.name().parse::<AllowedMethod>().unwrap(), method);
    }
}

#[test]
fn the_names_are_upper_case() {
    assert_eq!(AllowedMethod::ALL.name(), "ALL");
    assert_eq!(AllowedMethod::GET.name(), "GET");
    assert_eq!(AllowedMethod::POST.name(), "POST");
    assert_eq!(AllowedMethod::PUT.name(), "PUT");
    assert_eq!(AllowedMethod::PATCH.name(), "PATCH");
    assert_eq!(AllowedMethod::DELETE.name(), "DELETE");
}

#[test]
fn a_mixed_case_name_parses() {
    assert_eq!(AllowedMethod::parse("gEt").unwrap(), AllowedMethod::GET);
    assert_eq!(AllowedMethod::parse("Delete").unwrap(), AllowedMethod::DELETE);
}

#[test]
fn an_unknown_method_names_the_value() {
    let error = AllowedMethod::parse("FETCH").unwrap_err();
    assert!(matches!(error, Error::Custom(_)));
    assert_eq!(error.message(), "Unknown method: FETCH");
}

#[test]
fn all_has_no_http_method() {
    let error = AllowedMethod::ALL.to_http_method().unwrap_err();
    assert_eq!(error.message(), "Can't convert ALL to actix_web::http::Method");
}

#[test]
fn a_repeated_method_is_kept_once_and_order_is_kept() {
    let allowed_path = AllowedPath::from_methods(vec![
        AllowedMethod::POST,
        AllowedMethod::GET,
        AllowedMethod::POST,
        AllowedMethod::GET,
    ]);
    assert!(!allowed_path.all());
    assert_eq!(allowed_path.methods(), &vec![AllowedMethod::POST, AllowedMethod::GET]);
    assert!(allowed_path.allows("POST"));
    assert!(allowed_path.allows("GET"));
    assert!(!allowed_path.allows("PUT"));
    assert!(!allowed_path.allows("post"));
}

#[test]
fn a_path_with_all_allows_any_method_name() {
    let allowed_path = AllowedPath::new(true, vec![]);
    assert!(allowed_path.allows("OPTIONS"));
    assert!(allowed_path.allows("GET"));
}

#[test]
fn an_owned_string_and_the_string_parse_agree() {
    for text in ["GET", "post", "Patch", "gett", ""] {
        let owned: Result<AllowedMethod, Error> = AllowedMethod::try_from(text.to_string());
        let parsed: Result<AllowedMethod, Error> = text.parse();
        assert_eq!(owned.ok(), parsed.ok(), "{text}");
    }
}
