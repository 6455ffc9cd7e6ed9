[package]
name = "llmprism"
version = "0.1.0"
edition = "2021"
publish = false

[dependencies]
serde = { version = "=1.0.229", features = ["derive"] }
serde_json = "=1.0.154"
async-trait = "=0.1.92"
async-stream = "=0.3.6"
futures = "=0.3.34"
eventsource-stream = "=0.2.3"
reqwest = { version = "=0.13.5", default-features = false, features = ["json", "multipart", "stream"] }
reqwest-middleware = { version = "=0.5.2", features = ["json", "multipart"] }
reqwest-retry = "=0.9.1"
thiserror = "=2.0.21"
tokio = { version = "=1.54.1", features = ["process", "macros", "rt-multi-thread"] }
tracing = "=0.1.44"
rmcp = { version = "=3.8.0", features = ["client", "transport-child-process", "transport-streamable-http-client-reqwest"] }
