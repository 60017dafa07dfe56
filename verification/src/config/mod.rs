//! The typed configuration surface.

pub mod level;
pub mod server;
pub mod webhook;

pub use level::{LogLevel, SentryLevel};
pub use server::ServerConfig;
pub use webhook::AllowedMethod;
