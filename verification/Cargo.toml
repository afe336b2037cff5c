[package]
name = "rbx_studio_mcp"
version = "0.1.0"
edition = "2021"
publish = false

[dependencies]
axum = "0.8"
color-eyre = "0.6"
futures = "0.3"
reqwest = { version = "0.12", default-features = false, features = ["json", "rustls-tls"] }
rmcp = { version = "*", features = ["server", "macros"] }
serde = { version = "1", features = ["derive"] }
tokio = { version = "1", features = ["sync", "time", "macros", "rt-multi-thread"] }
tracing = "0.1"
uuid = { version = "1", features = ["v4", "serde"] }
