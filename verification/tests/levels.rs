use cloudflare_access_webhook_redirect::config::{LogLevel, SentryLevel};
use cloudflare_access_webhook_redirect::telemetry::{accepts, classify, RecordKind};

#[test]
fn severity_orders_the_way_tracing_does() {
    assert!(LogLevel::Error < LogLevel::Warn);
    assert!(LogLevel::Warn < LogLevel::Info);
    assert!(LogLevel::Info < LogLevel::Debug);
    assert!(LogLevel::Debug < LogLevel::Trace);

    assert!(tracing::Level::ERROR < tracing::Level::TRACE);
}

#[test]
fn the_default_is_info() {
    assert_eq!(LogLevel::default(), LogLevel::Info);
}

#[test]
fn the_sink_default_is_error() {
    assert_eq!(SentryLevel::default(), SentryLevel::Error);
}

#[test]
fn a_threshold_accepts_only_levels_at_least_as_severe() {
    assert!(accepts(SentryLevel::Error, LogLevel::Error));
    assert!(!accepts(SentryLevel::Error, LogLevel::Warn));
    assert!(!accepts(SentryLevel::Error, LogLevel::Trace));

    assert!(accepts(SentryLevel::Info, LogLevel::Error));
    assert!(accepts(SentryLevel::Info, LogLevel::Warn));
    assert!(accepts(SentryLevel::Info, LogLevel::Info));
    assert!(!accepts(SentryLevel::Info, LogLevel::Debug));

    for level in [
        LogLevel::Error,
        LogLevel::Warn,
        LogLevel::Info,
        LogLevel::Debug,
        LogLevel::Trace,
    ] {
        assert!(!accepts(SentryLevel::Off, level));
        assert!(accepts(SentryLevel::Trace, level));
    }
}

#[test]
fn a_record_is_an_issue_before_it_is_a_breadcrumb() {
    assert_eq!(classify(SentryLevel::Error, SentryLevel::Info, LogLevel::Error), RecordKind::Event);
    assert_eq!(classify(SentryLevel::Error, SentryLevel::Info, LogLevel::Warn), RecordKind::Breadcrumb);
    assert_eq!(classify(SentryLevel::Error, SentryLevel::Info, LogLevel::Info), RecordKind::Breadcrumb);
    assert_eq!(classify(SentryLevel::Error, SentryLevel::Info, LogLevel::Debug), RecordKind::Ignore);
    assert_eq!(classify(SentryLevel::Off, SentryLevel::Off, LogLevel::Error), RecordKind::Ignore);
    assert_eq!(classify(SentryLevel::Warn, SentryLevel::Off, LogLevel::Warn), RecordKind::Event);
}

#[test]
fn the_rank_is_the_verbosity() {
    assert_eq!(LogLevel::Error.rank(), 0);
    assert_eq!(LogLevel::Trace.rank(), 4);
    assert_eq!(LogLevel::Info.cmp(&LogLevel::Debug), std::cmp::Ordering::Less);
}
