[package]
name = "hot100"
version = "0.1.0"
edition = "2021"
publish = false

[dependencies]
scraper = "*"
axum = "*"
tokio = { version = "*", features = ["rt-multi-thread", "macros", "net"] }
reqwest = { version = "*", default-features = false }
tower-http = { version = "*", features = ["timeout"] }
tracing = "*"

[dev-dependencies]
serde_json = "*"
