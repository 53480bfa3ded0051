[package]
name = "llm_proxy"
version = "0.1.0"
edition = "2021"
publish = false

[dependencies]
anyhow = "=1.0.104"
async-stream = "=0.3.6"
async-trait = "=0.1.92"
aws-config = { version = "=1.13.0", features = ["behavior-version-latest"] }
aws-sdk-bedrockruntime = "=1.151.0"
aws-smithy-types = "=1.9.0"
axum = "=0.8.9"
chrono = "=0.4.45"
config = { version = "=0.15.27", default-features = false, features = ["toml"] }
futures = "=0.3.34"
reqwest = { version = "=0.12.28", default-features = false, features = ["json", "stream", "rustls-tls"] }
serde = { version = "=1.0.229", features = ["derive"] }
serde_json = { version = "=1.0.154", features = ["preserve_order"] }
tokio = { version = "=1.54.1", features = ["macros", "net", "rt-multi-thread"] }
tracing = "=0.1.44"
tracing-subscriber = "=0.3.23"
uuid = { version = "=1.29.0", features = ["v4"] }
