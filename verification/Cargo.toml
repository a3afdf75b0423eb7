[package]
name = "hub_credentials"
version = "0.1.0"
edition = "2021"
publish = false

[dependencies]
uuid = "=1.29.0"
chrono = "=0.4.45"
async-graphql = { version = "=5.0.10", features = ["chrono", "uuid"] }
async-graphql-poem = "=5.0.10"
poem = { version = "=1.3.59", features = ["anyhow"] }
prost = "0.11"
