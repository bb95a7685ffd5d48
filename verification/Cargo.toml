[package]
name = "cv-writer-mcp"
version = "0.1.0"
edition = "2021"
publish = false

[dependencies]
base64 = "0.22"
which = "*"
serde = { version = "1", features = ["derive"] }
serde_json = "1"
schemars = "0.8"
tera = { version = "1", default-features = false }
tokio = { version = "1", features = ["rt-multi-thread", "macros", "io-std", "io-util", "process", "fs", "time"] }
tempfile = "3"
thiserror = "*"
