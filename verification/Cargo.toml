[package]
name = "skunk_bat"
version = "0.2.15"
edition = "2021"
publish = false

[dependencies]
serde = { version = "1", features = ["derive"] }
serde_json = "1"
thiserror = "2"
tokio = { version = "1", features = ["full"] }
tracing = "0.1"
tarpc = "*"

[dev-dependencies]
tempfile = "3"
