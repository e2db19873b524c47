[package]
name = "sns_notify"
version = "0.1.0"
edition = "2021"
publish = false

[dependencies]
anyhow = "1"
hyper = { version = "0.14", features = ["server", "http1", "tcp"] }
rusoto_core = { version = "0.48", default-features = false, features = ["rustls"] }
rusoto_sns = { version = "0.48", default-features = false, features = ["rustls"] }
tokio = { version = "1", features = ["rt-multi-thread", "macros"] }

[dev-dependencies]
serde_json = "1"
