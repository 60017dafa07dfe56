//! The error everything outside the request path returns.

use vstd::prelude::*;

verus! {

/// Anything that stops the proxy starting or reloading, as far as the library decides it.
///
/// The listener's I/O failures, the configuration loader's and the reload watcher's belong to the
/// binary, which wraps this type in its own.
#[derive(Debug)]
pub enum Error {
    /// A `webhook.paths` key is not a valid regular expression. Carries the regex crate's
    /// description of why.
    Regex(String),
    /// A method reached the forwarder that it builds no request for. Carries the method's name.
    InvalidRoute(String),
    /// `telemetry.sentry` is switched on but unusable. Carries the message.
    Sentry(String),
    /// A failure with no better variant, with its message.
    Custom(String),
}

impl Error {
    /// Builds a [`Custom`](Error::Custom) carrying `msg`.
    pub fn custom(msg: &str) -> (error: Error)
        ensures
            error matches Error::Custom(m) && m@ == msg@,
    {
        Error::Custom(String::from_str(msg))
    }

    /// Names the method the forwarder could not build a request for.
    pub fn invalid_route(route: &str) -> (error: Error)
        ensures
            error matches Error::InvalidRoute(m) && m@ == route@,
    {
        Error::InvalidRoute(String::from_str(route))
    }

    /// The text the error carries.
    pub fn message(&self) -> (msg: &str)
        ensures
            match self {
                Error::Regex(m) => msg@ == m@,
                Error::InvalidRoute(m) => msg@ == m@,
                Error::Sentry(m) => msg@ == m@,
                Error::Custom(m) => msg@ == m@,
            },
    {
        match self {
            Error::Regex(m) => m.as_str(),
            Error::InvalidRoute(m) => m.as_str(),
            Error::Sentry(m) => m.as_str(),
            Error::Custom(m) => m.as_str(),
        }
    }
}

} // verus!
