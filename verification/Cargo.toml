[package]
name = "concordance"
version = "0.1.0"
edition = "2021"
publish = false

[dependencies]
case = "=1.0.0"
serde_json = "=1.0.154"
base64 = "=0.21.7"
uuid = { version = "=1.29.0", features = ["v4"] }
chrono = "=0.4.45"
cloudevents-sdk = "=0.7.0"
serde = { version = "=1.0.229", features = ["derive"] }
serde_bytes = "=0.11.19"
async-nats = "=0.29.0"
wasmbus-rpc = "=0.13.0"
tokio = { version = "=1.54.1", features = ["macros", "rt-multi-thread", "time", "sync"] }
futures = "=0.3.34"
async-trait = "=0.1.92"
tracing = "=0.1.44"
