[package]
name = "socialnetwork"
version = "0.1.0"
edition = "2021"
publish = false

[dependencies]
uuid = { version = "1", features = ["v4", "serde"] }
rand = "0.8"
fake = "2.9"
chrono = "0.4"
serde = { version = "1", features = ["derive"] }
serde_json = "1"
tokio = { version = "1", features = ["full"] }
axum = { version = "0.7", features = ["macros"] }
http = "1"
tower-http = { version = "0.5", features = ["cors", "fs"] }
askama = "0.12"
reqwest = { version = "0.12", default-features = false }
rskafka = { version = "0.5", default-features = false }
scylla = "0.12"
