use cloudflare_access_webhook_redirect::config::ServerConfig;
use cloudflare_access_webhook_redirect::error::Error;
use cloudflare_access_webhook_redirect::server::Server;
use cloudflare_access_webhook_redirect::text::decimal_string;
use cloudflare_access_webhook_redirect::telemetry::{
    actix_middleware, require_dsn, sentry_dsn, trace_headers, HttpOptions, TelemetryGuard,
};

#[test]
fn enabled_without_a_dsn_is_a_boot_failure() {
    let error = require_dsn(None).expect_err("a client with no DSN reports nowhere");

    assert!(matches!(error, Error::Sentry(_)));
    assert!(error.message().contains("dsn"), "{error:?}");
}

#[test]
fn an_empty_dsn_reads_as_absent_rather_than_malformed() {
    let error = require_dsn(Some("   ")).expect_err("a blank DSN reports nowhere either");

    assert!(error.message().contains("is empty"), "{error:?}");
    assert!(require_dsn(Some("")).is_err());
}

#[test]
fn a_dsn_is_trimmed() {
    assert_eq!(
        require_dsn(Some("https://key@sentry.example/42\n")).unwrap(),
        "https://key@sentry.example/42"
    );
}

#[test]
fn disabled_installs_no_client_and_no_middleware() {
    assert!(actix_middleware(None).is_none());
    assert!(actix_middleware(Some(HttpOptions {
        active: false,
        transactions: true
    }))
    .is_none());
    assert!(!TelemetryGuard::new(None).reporting());
}

#[test]
fn an_active_client_mounts_the_middleware() {
    assert!(actix_middleware(Some(HttpOptions {
        active: true,
        transactions: false
    }))
    .is_some());
}

#[test]
fn the_listener_defaults_to_localhost_8080() {
    let config = ServerConfig::default();
    assert_eq!(config.host(), "127.0.0.1");
    assert_eq!(config.port(), 8080);
    assert_eq!(ServerConfig::default_host(), "127.0.0.1");
    assert_eq!(ServerConfig::default_port(), 8080);

    let config = ServerConfig::new("0.0.0.0".to_string(), 9090);
    assert_eq!(config.host(), "0.0.0.0");
    assert_eq!(config.port(), 9090);

    let server = Server::new("0.0.0.0".to_string(), 9090);
    assert_eq!(server.host(), "0.0.0.0");
    assert_eq!(server.port(), 9090);
}

#[test]
fn decimal_spelling() {
    assert_eq!(decimal_string(0), "0");
    assert_eq!(decimal_string(7), "7");
    assert_eq!(decimal_string(10), "10");
    assert_eq!(decimal_string(65535), "65535");
    assert_eq!(decimal_string(u64::MAX), u64::MAX.to_string());
}

#[test]
fn trace_headers_are_empty_without_a_client() {
    assert!(trace_headers().is_empty());
}

#[test]
fn a_malformed_dsn_is_refused_without_quoting_it() {
    let error = sentry_dsn(Some("not-a-dsn")).expect_err("the DSN does not parse");

    assert!(matches!(error, Error::Sentry(_)));
    assert!(error.message().contains("not a valid Sentry DSN"), "{error:?}");
    assert!(!error.message().contains("not-a-dsn"), "the DSN must not be echoed: {error:?}");
}

#[test]
fn a_blank_dsn_is_refused_as_empty_before_it_is_parsed() {
    let error = sentry_dsn(Some(" \t ")).expect_err("nothing is left after trimming");
    assert!(error.message().contains("is empty"), "{error:?}");
}

#[test]
fn a_well_formed_dsn_is_parsed_after_trimming() {
    let dsn = sentry_dsn(Some(" https://key@sentry.example/42\n")).unwrap();
    assert_eq!(dsn.public_key(), "key");
    assert_eq!(dsn.host(), "sentry.example");
}

#[test]
fn unicode_white_space_is_trimmed_from_both_ends_only() {
    assert_eq!(require_dsn(Some("\u{3000}\t a b \u{a0}\u{2028}")).unwrap(), "a b");
    assert!(require_dsn(Some("\u{85}\u{200a}\r\n")).is_err());
}
