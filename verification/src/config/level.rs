//! The severity types the configuration surface is written in.
//!
//! [`LogLevel`] is the subscriber's own threshold and [`SentryLevel`] is a Sentry sink's; the
//! only difference between them is that a sink can be turned off while a subscriber cannot.
//! Both order the same way `tracing` does: more verbose is greater, so "at least as severe as
//! this threshold" reads `<=`.

use core::cmp::Ordering;
use vstd::prelude::*;
use vstd::std_specs::cmp::PartialOrdSpecImpl;

verus! {

/// Minimum severity the subscriber emits.
///
/// Ordered in declaration order, which is the direction `tracing::Level` sorts in: `Error` is
/// the least of these and `Trace` the greatest.
#[derive(Debug, Clone, Copy, PartialEq, Eq, Structural, Hash, Ord)]
pub enum LogLevel {
    /// `error` only.
    Error,
    /// `error` and `warn`.
    Warn,
    /// Down to `info`.
    Info,
    /// Down to `debug`.
    Debug,
    /// Everything.
    Trace,
}

/// How verbose a level is: `Error` is 0 and `Trace` is 4.
pub open spec fn log_rank(level: LogLevel) -> nat {
    match level {
        LogLevel::Error => 0,
        LogLevel::Warn => 1,
        LogLevel::Info => 2,
        LogLevel::Debug => 3,
        LogLevel::Trace => 4,
    }
}

/// The comparison of two levels by verbosity.
pub open spec fn compare_levels(a: LogLevel, b: LogLevel) -> Ordering {
    if log_rank(a) < log_rank(b) {
        Ordering::Less
    } else if log_rank(a) == log_rank(b) {
        Ordering::Equal
    } else {
        Ordering::Greater
    }
}

/// The order is total: two levels compare equal only when they are the same level, and
/// swapping them turns `Less` into `Greater`.
pub proof fn lemma_levels_totally_ordered(a: LogLevel, b: LogLevel)
    ensures
        (compare_levels(a, b) == Ordering::Equal) <==> a == b,
        (compare_levels(a, b) == Ordering::Less) <==> (compare_levels(b, a) == Ordering::Greater),
{
}

impl LogLevel {
    /// How verbose this level is: `Error` is 0 and `Trace` is 4.
    pub fn rank(&self) -> (rank: u8)
        ensures
            rank == log_rank(*self),
    {
        match self {
            LogLevel::Error => 0,
            LogLevel::Warn => 1,
            LogLevel::Info => 2,
            LogLevel::Debug => 3,
            LogLevel::Trace => 4,
        }
    }
}

impl PartialOrd for LogLevel {
    fn partial_cmp(&self, other: &LogLevel) -> (ordering: Option<Ordering>) {
        let a = self.rank();
        let b = other.rank();
        if a < b {
            Some(Ordering::Less)
        } else if a == b {
            Some(Ordering::Equal)
        } else {
            Some(Ordering::Greater)
        }
    }
}

impl PartialOrdSpecImpl for LogLevel {
    open spec fn obeys_partial_cmp_spec() -> bool {
        true
    }

    open spec fn partial_cmp_spec(&self, other: &LogLevel) -> Option<Ordering> {
        Some(compare_levels(*self, *other))
    }
}

impl Default for LogLevel {
    /// `Info`.
    fn default() -> (level: LogLevel)
        ensures
            level == LogLevel::Info,
    {
        LogLevel::Info
    }
}

/// How much of the `tracing` stream one Sentry sink takes.
///
/// Ordered by severity, so a threshold names the least severe record it accepts: `Warn` means
/// `error` and `warn`. [`Off`](Self::Off) is below all of them and takes nothing.
#[derive(Debug, Clone, Copy, PartialEq, Eq, Structural, Hash)]
pub enum SentryLevel {
    /// Take nothing.
    Off,
    /// `error` only.
    Error,
    /// `error` and `warn`.
    Warn,
    /// Down to `info`.
    Info,
    /// Down to `debug`.
    Debug,
    /// Everything.
    Trace,
}

impl Default for SentryLevel {
    /// `Error`.
    fn default() -> (level: SentryLevel)
        ensures
            level == SentryLevel::Error,
    {
        SentryLevel::Error
    }
}

/// The subscriber level a sink threshold names, or `None` for [`SentryLevel::Off`].
pub open spec fn sink_threshold(threshold: SentryLevel) -> Option<LogLevel> {
    match threshold {
        SentryLevel::Off => None,
        SentryLevel::Error => Some(LogLevel::Error),
        SentryLevel::Warn => Some(LogLevel::Warn),
        SentryLevel::Info => Some(LogLevel::Info),
        SentryLevel::Debug => Some(LogLevel::Debug),
        SentryLevel::Trace => Some(LogLevel::Trace),
    }
}

/// Whether a record at `level` is at least as severe as `threshold`; nothing is, for `Off`.
pub open spec fn sink_accepts(threshold: SentryLevel, level: LogLevel) -> bool {
    match sink_threshold(threshold) {
        Some(t) => log_rank(level) <= log_rank(t),
        None => false,
    }
}

} // verus!
