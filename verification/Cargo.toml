[package]
name = "neug_rust"
version = "0.2.1"
edition = "2021"
publish = false

[dependencies]
serde = { version = "1", features = ["derive"] }
bincode = "1"
thiserror = "1"

[dev-dependencies]
tempfile = "3"
