[package]
name = "cadence"
version = "0.1.0"
edition = "2021"
publish = false

[dependencies]
chrono = "0.4"
serde = { version = "1", features = ["derive"] }
serde_json = "1"
thiserror = "1"
async-trait = "0.1"
libsql = "*"
tokio = { version = "1", features = ["rt-multi-thread", "macros"] }
