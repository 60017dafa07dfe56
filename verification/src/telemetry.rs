//! What the telemetry block decides: which records a Sentry sink takes, whether a configured
//! DSN is usable, and which HTTP middleware a listener mounts.
//!
//! Installing the subscriber and the client is process-global and stays with the binary; the
//! decisions it makes while doing so are here.

use crate::config::level::{log_rank, sink_accepts, LogLevel, SentryLevel};
use crate::error::Error;
use crate::text::{concat, trim, unicode_trim};
use vstd::prelude::*;

verus! {

/// Whether a record at `level` is at least as severe as `threshold`.
///
/// `tracing` orders `ERROR` lowest, so "at least as severe" is `<=`; `Off` takes nothing.
pub fn accepts(threshold: SentryLevel, level: LogLevel) -> (accepted: bool)
    ensures
        accepted == sink_accepts(threshold, level),
{
    let threshold = match threshold {
        SentryLevel::Off => return false,
        SentryLevel::Error => LogLevel::Error,
        SentryLevel::Warn => LogLevel::Warn,
        SentryLevel::Info => LogLevel::Info,
        SentryLevel::Debug => LogLevel::Debug,
        SentryLevel::Trace => LogLevel::Trace,
    };
    level.rank() <= threshold.rank()
}

/// What a Sentry sink makes of one `tracing` record.
#[derive(Debug, Clone, Copy, PartialEq, Eq, Structural)]
pub enum RecordKind {
    /// Reported as an issue.
    Event,
    /// Kept as a breadcrumb, the trail attached to the next issue.
    Breadcrumb,
    /// Dropped.
    Ignore,
}

/// An issue when the capture threshold takes the record, else a breadcrumb when the breadcrumb
/// threshold does, else nothing.
pub open spec fn record_kind(capture: SentryLevel, breadcrumb: SentryLevel, level: LogLevel) -> RecordKind {
    if sink_accepts(capture, level) {
        RecordKind::Event
    } else if sink_accepts(breadcrumb, level) {
        RecordKind::Breadcrumb
    } else {
        RecordKind::Ignore
    }
}

/// Classifies one record for the Sentry layer.
pub fn classify(capture: SentryLevel, breadcrumb: SentryLevel, level: LogLevel) -> (kind: RecordKind)
    ensures
        kind == record_kind(capture, breadcrumb, level),
{
    if accepts(capture, level) {
        RecordKind::Event
    } else if accepts(breadcrumb, level) {
        RecordKind::Breadcrumb
    } else {
        RecordKind::Ignore
    }
}

/// A threshold that takes a record also takes every more severe one.
pub proof fn lemma_accepts_more_severe(threshold: SentryLevel, level: LogLevel, more_severe: LogLevel)
    requires
        sink_accepts(threshold, level),
        log_rank(more_severe) <= log_rank(level),
    ensures
        sink_accepts(threshold, more_severe),
{
}

/// Each threshold takes exactly the levels at least as severe as the level of its own name:
/// `Error` takes `error`, `Warn` takes `error` and `warn`, `Info` adds `info`, `Debug` takes
/// everything but `trace`, `Trace` takes everything, and `Off` takes nothing.
pub proof fn lemma_thresholds_take_exactly(level: LogLevel)
    ensures
        !sink_accepts(SentryLevel::Off, level),
        sink_accepts(SentryLevel::Error, level) <==> level == LogLevel::Error,
        sink_accepts(SentryLevel::Warn, level) <==> (level == LogLevel::Error || level == LogLevel::Warn),
        sink_accepts(SentryLevel::Info, level) <==> (level == LogLevel::Error || level == LogLevel::Warn
            || level == LogLevel::Info),
        sink_accepts(SentryLevel::Debug, level) <==> level != LogLevel::Trace,
        sink_accepts(SentryLevel::Trace, level),
{
}

/// A record is an issue exactly when the capture threshold takes it, a breadcrumb exactly when
/// only the breadcrumb threshold does, and dropped when neither does.
pub proof fn lemma_classification(capture: SentryLevel, breadcrumb: SentryLevel, level: LogLevel)
    ensures
        (record_kind(capture, breadcrumb, level) == RecordKind::Event) <==> sink_accepts(capture, level),
        (record_kind(capture, breadcrumb, level) == RecordKind::Breadcrumb) <==> (!sink_accepts(capture, level)
            && sink_accepts(breadcrumb, level)),
        (record_kind(capture, breadcrumb, level) == RecordKind::Ignore) <==> (!sink_accepts(capture, level)
            && !sink_accepts(breadcrumb, level)),
{
}

/// `Off` takes no record and `Trace` takes every one.
pub proof fn lemma_off_and_trace(level: LogLevel)
    ensures
        !sink_accepts(SentryLevel::Off, level),
        sink_accepts(SentryLevel::Trace, level),
{
}

/// The message a switched-on block without a usable DSN is refused with.
pub open spec fn empty_dsn_message() -> Seq<char> {
    "telemetry.sentry.enabled is set but telemetry.sentry.dsn is empty; nothing would be reported. Supply the DSN, or turn the block off."@
}

/// The DSN to parse, out of what was configured: empty is absent, not a value, so a DSN that
/// is nothing but white space is refused the same way a missing one is.
///
/// # Errors
/// [`Error::Sentry`] with the message above when there is no DSN left after trimming.
pub fn require_dsn(dsn: Option<&str>) -> (usable: Result<&str, Error>)
    ensures
        match usable {
            Ok(d) => dsn matches Some(given) && d@ == unicode_trim(given@) && d@.len() > 0,
            Err(e) => {
                &&& (dsn is None || unicode_trim(dsn->0@).len() == 0)
                &&& e matches Error::Sentry(msg) && msg@ == empty_dsn_message()
            },
        },
{
    let refusal = "telemetry.sentry.enabled is set but telemetry.sentry.dsn is empty; nothing would be reported. Supply the DSN, or turn the block off.";
    match dsn {
        Some(given) => {
            let trimmed = trim(given);
            if trimmed.is_empty() {
                Err(Error::Sentry(String::from_str(refusal)))
            } else {
                Ok(trimmed)
            }
        },
        None => Err(Error::Sentry(String::from_str(refusal))),
    }
}

/// What `<sentry::types::Dsn as FromStr>::from_str` makes of `s`, or `None` when it refuses it.
pub uninterp spec fn dsn_parsed(s: Seq<char>) -> Option<sentry::types::Dsn>;

/// Whether `t` is the description of one of the five ways `sentry-types` refuses a DSN.
pub open spec fn dsn_error_text(t: Seq<char>) -> bool {
    ||| t == "no valid url provided"@
    ||| t == "no valid scheme"@
    ||| t == "username is empty"@
    ||| t == "empty path"@
    ||| t == "invalid project id"@
}

/// `<sentry::types::Dsn as FromStr>::from_str`.
///
/// Trusted: the result is what the crate makes of `dsn` (named), and a refusal is handed back
/// as the text of its `ParseDsnError`, whose five variants each display a fixed message that
/// quotes nothing of the input (sentry-types 0.49, `dsn.rs`).
#[verifier::external_body]
fn parse_dsn(dsn: &str) -> (parsed: Result<sentry::types::Dsn, String>)
    ensures
        match parsed {
            Ok(d) => dsn_parsed(dsn@) == Some(d),
            Err(t) => dsn_parsed(dsn@) is None && dsn_error_text(t@),
        },
{
    match <sentry::types::Dsn as std::str::FromStr>::from_str(dsn) {
        Ok(d) => Ok(d),
        Err(e) => Err(e.to_string()),
    }
}

/// The message a DSN that does not parse is refused with, given the crate's description.
pub open spec fn malformed_dsn_message(description: Seq<char>) -> Seq<char> {
    "telemetry.sentry.dsn is not a valid Sentry DSN ("@ + description
        + "); expected https://<key>@<host>/<project>"@
}

/// Whether `m` is the refusal of a DSN that does not parse: the message above around one of
/// the crate's fixed descriptions, so it never quotes the DSN.
pub open spec fn is_malformed_dsn_message(m: Seq<char>) -> bool {
    exists|t: Seq<char>| dsn_error_text(t) && m == #[trigger] malformed_dsn_message(t)
}

/// The DSN the client is installed with, out of what was configured: trimmed, refused as
/// empty when nothing is left, and parsed.
///
/// # Errors
/// [`Error::Sentry`]: the empty-DSN message when there is no DSN left after trimming, and a
/// message that names the crate's reason, and not the DSN, when it does not parse.
pub fn sentry_dsn(dsn: Option<&str>) -> (usable: Result<sentry::types::Dsn, Error>)
    ensures
        usable is Ok <==> (dsn matches Some(g) && unicode_trim(g@).len() > 0
            && dsn_parsed(unicode_trim(g@)) is Some),
        usable matches Ok(d) ==> dsn_parsed(unicode_trim(dsn->0@)) == Some(d),
        (dsn is None || unicode_trim(dsn->0@).len() == 0) ==> (usable matches Err(e)
            && e matches Error::Sentry(m) && m@ == empty_dsn_message()),
        (dsn matches Some(g) && unicode_trim(g@).len() > 0 && dsn_parsed(unicode_trim(g@)) is None)
            ==> (usable matches Err(e) && e matches Error::Sentry(m) && is_malformed_dsn_message(m@)),
{
    let trimmed = match require_dsn(dsn) {
        Ok(t) => t,
        Err(e) => return Err(e),
    };
    match parse_dsn(trimmed) {
        Ok(d) => Ok(d),
        Err(text) => {
            let opened = concat("telemetry.sentry.dsn is not a valid Sentry DSN (", text.as_str());
            let message = concat(opened.as_str(), "); expected https://<key>@<host>/<project>");
            proof {
                assert(message@ == malformed_dsn_message(text@));
            }
            Err(Error::Sentry(message))
        },
    }
}

/// Keeps the Sentry client alive, and flushes what it has queued on drop.
///
/// Bind it for the lifetime of `main`: dropping it closes the client.
pub struct TelemetryGuard(Option<sentry::ClientInitGuard>);

impl TelemetryGuard {
    /// Wraps the guard of an installed client, or `None` when Sentry is off.
    pub fn new(guard: Option<sentry::ClientInitGuard>) -> (telemetry: TelemetryGuard)
        ensures
            telemetry.reports() == guard is Some,
    {
        TelemetryGuard(guard)
    }

    /// Whether a Sentry client was installed.
    pub closed spec fn reports(&self) -> bool {
        self.0 is Some
    }

    /// Whether a Sentry client was installed.
    pub fn reporting(&self) -> (installed: bool)
        ensures
            installed == self.reports(),
    {
        self.0.is_some()
    }
}

/// The name of the one trace-continuation header Sentry emits.
pub open spec fn sentry_trace_header() -> Seq<char> {
    "sentry-trace"@
}

/// The trace-continuation headers for the request currently in scope, each as its name and its
/// value: `sentry::configure_scope` handing the scope's `iter_trace_propagation_headers` back.
///
/// Trusted: at most one header comes back, and it is named `sentry-trace` (sentry-core 0.49,
/// `TraceHeadersIter`). Whether one comes back at all depends on whether the process has bound a
/// client (none does when Sentry is off, and then the list is empty) and on the span in scope,
/// neither of which is an argument, so that is left unsaid; so is the value.
#[verifier::external_body]
pub fn trace_headers() -> (headers: Vec<(String, String)>)
    ensures
        headers@.len() <= 1,
        forall|i: int| 0 <= i < headers@.len() ==> (#[trigger] headers@[i]).0@ == sentry_trace_header(),
{
    sentry::configure_scope(|scope| {
        scope.iter_trace_propagation_headers().map(|(name, value)| (name.to_string(), value)).collect()
    })
}

/// The two independent halves of the HTTP integration, decided once at boot.
#[derive(Debug, Clone, Copy, PartialEq, Eq, Structural)]
pub struct HttpOptions {
    /// A client is bound, so requests get their own hub and their request metadata.
    pub active: bool,
    /// Additionally start one transaction per request.
    pub transactions: bool,
}

/// `sentry::integrations::actix::Sentry::builder`.
///
/// Trusted: nothing is stated of the fresh builder, which takes no argument to name it by; the
/// settings [`actix_middleware`] puts on it are stated through the names below.
#[verifier::external_body]
fn middleware_builder() -> sentry::integrations::actix::SentryBuilder {
    sentry::integrations::actix::Sentry::builder()
}

/// What `sentry::integrations::actix::SentryBuilder::start_transaction` makes of `builder`.
pub uninterp spec fn middleware_starting(
    builder: sentry::integrations::actix::SentryBuilder,
    start: bool,
) -> sentry::integrations::actix::SentryBuilder;

/// What `sentry::integrations::actix::SentryBuilder::capture_server_errors` makes of `builder`.
pub uninterp spec fn middleware_capturing(
    builder: sentry::integrations::actix::SentryBuilder,
    capture: bool,
) -> sentry::integrations::actix::SentryBuilder;

/// What `sentry::integrations::actix::SentryBuilder::finish` makes of `builder`.
pub uninterp spec fn middleware_finished(
    builder: sentry::integrations::actix::SentryBuilder,
) -> sentry::integrations::actix::Sentry;

/// `sentry::integrations::actix::SentryBuilder::start_transaction`.
///
/// Trusted: the builder it returns is `builder` set to start a transaction per request exactly
/// when `start` (named; the setter only assigns that flag).
#[verifier::external_body]
fn middleware_start_transaction(
    builder: sentry::integrations::actix::SentryBuilder,
    start: bool,
) -> (configured: sentry::integrations::actix::SentryBuilder)
    ensures
        configured == middleware_starting(builder, start),
{
    builder.start_transaction(start)
}

/// `sentry::integrations::actix::SentryBuilder::capture_server_errors`.
///
/// Trusted: the builder it returns is `builder` set to report server errors exactly when
/// `capture` (named; the setter only assigns that flag).
#[verifier::external_body]
fn middleware_capture_server_errors(
    builder: sentry::integrations::actix::SentryBuilder,
    capture: bool,
) -> (configured: sentry::integrations::actix::SentryBuilder)
    ensures
        configured == middleware_capturing(builder, capture),
{
    builder.capture_server_errors(capture)
}

/// `sentry::integrations::actix::SentryBuilder::finish`.
///
/// Trusted: the middleware it returns is the one `builder` holds (named).
#[verifier::external_body]
fn middleware_finish(builder: sentry::integrations::actix::SentryBuilder) -> (middleware: sentry::integrations::actix::Sentry)
    ensures
        middleware == middleware_finished(builder),
{
    builder.finish()
}

/// The per-request hub and request-metadata middleware, or `None` when Sentry is off or the
/// options were never recorded.
///
/// The middleware starts a transaction per request when the options say so, and never captures
/// a 5xx itself: the proxy relays the target's status verbatim, so a 5xx here is the target's.
pub fn actix_middleware(options: Option<HttpOptions>) -> (middleware: Option<sentry::integrations::actix::Sentry>)
    ensures
        middleware is Some <==> (options matches Some(o) && o.active),
        middleware matches Some(m) ==> exists|fresh: sentry::integrations::actix::SentryBuilder|
            m == #[trigger] middleware_finished(
                middleware_capturing(middleware_starting(fresh, options->0.transactions), false),
            ),
{
    let options = match options {
        Some(o) => o,
        None => return None,
    };
    if !options.active {
        return None;
    }
    let builder = middleware_builder();
    let builder = middleware_start_transaction(builder, options.transactions);
    let builder = middleware_capture_server_errors(builder, false);
    Some(middleware_finish(builder))
}

} // verus!
