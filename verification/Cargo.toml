[package]
name = "mongo_bridge"
version = "0.1.0"
edition = "2021"
publish = false

[dependencies]
bson = "2"
deno_core = "=0.56.0"
futures = "=0.3.34"
lazy_static = "=1.5.1"
mongodb = { version = "2", features = ["tokio-sync"] }
serde = { version = "=1.0.229", features = ["derive"] }
serde_json = "=1.0.154"
