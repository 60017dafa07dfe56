//! The configuration compiled into what a request is matched against.

pub mod webhook;

pub use webhook::{AllowedPath, AllowedPathView, AllowedPaths, Route, WebHookData};
