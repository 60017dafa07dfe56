use cloudflare_access_webhook_redirect::converter::{
    ActixToReqwestConverter, ConverterError, ReqwestToActixConverter,
};

/// The headers of an actix map, as the library takes them.
fn pairs(values: &[(&str, &str)]) -> Vec<(String, Vec<u8>)> {
    let mut header_map = actix_web::http::header::HeaderMap::new();
    for (key, value) in values {
        let key = actix_web::http::header::HeaderName::from_bytes(key.as_bytes()).unwrap();
        let value = actix_web::http::header::HeaderValue::from_bytes(value.as_bytes()).unwrap();
        header_map.append(key, value);
    }
    header_map
        .iter()
        .map(|(name, value)| (name.as_str().to_string(), value.as_bytes().to_vec()))
        .collect()
}

#[test]
fn test_convert_headers_invalid_header() {
    let headers = pairs(&[("Host", "localhost")]);

    let converted_headers = ActixToReqwestConverter::convert_headers(&headers);

    assert!(converted_headers.is_empty());
}

#[test]
fn test_convert_headers() {
    let headers = pairs(&[("test", "value"), ("host", "localhost")]);

    let converted_headers = ActixToReqwestConverter::convert_headers(&headers);

    assert_eq!(converted_headers.len(), 1);
    assert_eq!(converted_headers[0].0, "test");
    assert_eq!(converted_headers[0].1, b"value".to_vec());
}

#[test]
fn a_header_name_is_forwarded_in_its_canonical_spelling() {
    let headers = vec![
        ("X-Custom".to_string(), b"1".to_vec()),
        ("HOST".to_string(), b"localhost".to_vec()),
    ];
    let converted = ActixToReqwestConverter::convert_headers(&headers);
    assert_eq!(converted, vec![("x-custom".to_string(), b"1".to_vec())]);
}

#[test]
fn a_refused_name_or_value_is_dropped() {
    let headers = vec![
        ("bad name".to_string(), b"1".to_vec()),
        ("good".to_string(), b"line\nbreak".to_vec()),
        ("tab".to_string(), b"a\tb".to_vec()),
        ("utf8".to_string(), "é".as_bytes().to_vec()),
    ];
    let converted = ActixToReqwestConverter::convert_headers(&headers);
    assert_eq!(
        converted,
        vec![
            ("tab".to_string(), b"a\tb".to_vec()),
            ("utf8".to_string(), "é".as_bytes().to_vec()),
        ]
    );
}

#[test]
fn only_host_is_refused_by_name() {
    assert!(!ActixToReqwestConverter::is_valid_header_name("host"));
    assert!(ActixToReqwestConverter::is_valid_header_name("hostname"));
    assert!(ActixToReqwestConverter::is_valid_header_name("x-forwarded-host"));
}

#[test]
fn test_convert_status_code() {
    let status_code = reqwest::StatusCode::OK;
    let actix_status_code =
        ReqwestToActixConverter::convert_status_code(status_code.as_u16()).unwrap();

    assert_eq!(actix_status_code, actix_web::http::StatusCode::OK);
}

#[test]
fn a_status_code_outside_the_range_is_refused_with_its_number() {
    for code in [0u16, 99, 1000, 65535] {
        match ReqwestToActixConverter::convert_status_code(code) {
            Err(ConverterError::InvalidStatusCode(message)) => {
                assert_eq!(message, format!("Invalid status code: {code}"));
            }
            other => panic!("{code} must be refused, got {other:?}"),
        }
    }
    assert_eq!(
        ReqwestToActixConverter::convert_status_code(100).unwrap(),
        actix_web::http::StatusCode::CONTINUE
    );
    assert_eq!(
        ReqwestToActixConverter::convert_status_code(999).unwrap().as_u16(),
        999
    );
}
