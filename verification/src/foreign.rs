//! The outside types the library carries without looking inside them.

use vstd::prelude::*;

verus! {

/// `actix_web::http::Method`, an HTTP method as actix's request type carries it.
#[verifier::external_type_specification]
#[verifier::external_body]
pub struct ExActixMethod(actix_web::http::Method);

/// `regex::RegexSet`, the compiled form of every path pattern at once.
#[verifier::external_type_specification]
#[verifier::external_body]
pub struct ExRegexSet(regex::RegexSet);

/// `actix_web::http::StatusCode`, the status a relayed response is built with.
#[verifier::external_type_specification]
#[verifier::external_body]
pub struct ExActixStatusCode(actix_web::http::StatusCode);

/// `reqwest::Client`, the shared HTTP client every forwarded request is sent through.
#[verifier::external_type_specification]
#[verifier::external_body]
pub struct ExReqwestClient(reqwest::Client);

/// `reqwest::Url`, the target base and every URL joined onto it.
#[verifier::external_type_specification]
#[verifier::external_body]
pub struct ExReqwestUrl(reqwest::Url);

/// `reqwest::Body`, the body a forwarded request carries, already read to its end.
#[verifier::external_type_specification]
#[verifier::external_body]
pub struct ExReqwestBody(reqwest::Body);

/// `reqwest::RequestBuilder`, a forwarded request being assembled.
#[verifier::external_type_specification]
#[verifier::external_body]
pub struct ExReqwestRequestBuilder(reqwest::RequestBuilder);

/// `reqwest::header::HeaderValue`, the value type a forwarded header map holds.
#[verifier::external_type_specification]
#[verifier::external_body]
pub struct ExReqwestHeaderValue(reqwest::header::HeaderValue);

/// `reqwest::header::HeaderMap`, the header map a forwarded request is sent with.
#[verifier::external_type_specification]
#[verifier::external_body]
#[verifier::reject_recursive_types(T)]
pub struct ExReqwestHeaderMap<T>(reqwest::header::HeaderMap<T>);

/// `sentry::types::Dsn`, a parsed Sentry ingest address.
#[verifier::external_type_specification]
#[verifier::external_body]
pub struct ExSentryDsn(sentry::types::Dsn);

/// `sentry::ClientInitGuard`, which keeps the process's Sentry client alive.
#[verifier::external_type_specification]
#[verifier::external_body]
pub struct ExSentryClientInitGuard(sentry::ClientInitGuard);

/// `sentry::integrations::actix::Sentry`, the per-request hub middleware.
#[verifier::external_type_specification]
#[verifier::external_body]
pub struct ExSentryMiddleware(sentry::integrations::actix::Sentry);

/// `sentry::integrations::actix::SentryBuilder`, that middleware being configured.
#[verifier::external_type_specification]
#[verifier::external_body]
pub struct ExSentryMiddlewareBuilder(sentry::integrations::actix::SentryBuilder);

} // verus!
