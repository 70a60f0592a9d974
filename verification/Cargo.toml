[package]
name = "subgraph"
version = "0.1.0"
edition = "2021"
publish = false

[dependencies]
tokio = { version = "1", features = ["sync", "rt-multi-thread", "macros", "net"] }
async-nats = "*"
async-graphql = { version = "7", features = ["dynamic-schema"] }
async-graphql-axum = "7"
async-stream = "0.3"
axum = "*"
clap = { version = "4", features = ["derive", "env"] }
anyhow = "1"
futures-util = "0.3"
tower-http = { version = "*", features = ["cors"] }
