[package]
name = "cloudflare_access_webhook_redirect"
version = "0.1.0"
edition = "2021"
publish = false

[dependencies]
actix-web = "4"
anyhow = "1"
derive-new = "0.7"
getset = "0.1"
regex = "1"
reqwest = { version = "0.12", default-features = false }
secrecy = "0.10"
sentry = { version = "0.49", default-features = false, features = ["actix", "tracing", "panic"] }
serde = { version = "1", features = ["derive"] }
serde_json = "1"
thiserror = "2"
tokio = { version = "1", features = ["macros", "rt-multi-thread", "signal"] }
tokio-stream = "0.1"
tokio-util = "0.7"
tracing = "0.1"
tracing-actix-web = "0.7"
tracing-subscriber = "0.3"
