[package]
name = "multiplex"
version = "0.1.0"
edition = "2021"
publish = false

[dependencies]
axum = "0.6"
futures = "0.3"
hyper = { version = "0.14", features = ["full"] }
prost = "0.11"
tokio = { version = "1", features = ["full"] }
tonic = "0.9"
tower = { version = "0.4", features = ["make"] }
tracing = "0.1"
tracing-subscriber = "0.3"
