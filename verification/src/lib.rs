//! A reverse proxy that fronts a Cloudflare Access protected service for senders that cannot
//! authenticate to it themselves.
//!
//! The library holds everything the proxy decides: which methods and path patterns the
//! configuration allows, whether one request is admitted, which headers travel upstream, how a
//! forwarded request is assembled for each method, and how the severity thresholds of the
//! telemetry block classify a record. Each of those decisions is proved against its contract.
//! Listening, reading bodies, sending requests and installing process-global telemetry live in
//! the binary around it.

pub mod foreign;
pub mod text;
pub mod error;
pub mod config;
pub mod data;
pub mod converter;
pub mod routes;
pub mod server;
pub mod telemetry;
