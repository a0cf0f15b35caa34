[package]
name = "nmos_node"
version = "0.1.0"
edition = "2021"
publish = false

[dependencies]
async-trait = "0.1"
axum = "0.5"
futures = "0.3"
http = "0.2"
hyper = { version = "0.14", features = ["server", "tcp", "http1"] }
reqwest = { version = "0.11", default-features = false, features = ["json"] }
serde = { version = "1", features = ["derive"] }
serde_json = "1"
tokio = { version = "1", features = ["macros", "rt-multi-thread", "sync", "time"] }
tower = { version = "0.4", features = ["make", "util"] }
tower-http = { version = "0.3", features = ["cors"] }
tracing = "0.1"
uuid = { version = "1", features = ["v4"] }
zeroconf = "0.10"
