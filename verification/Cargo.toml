[package]
name = "ibarrow"
version = "0.1.0"
edition = "2021"
publish = false

[dependencies]
arrow = { version = "=60.0.0", default-features = false, features = ["ffi", "ipc"] }
arrow-ipc = "=60.0.0"
arrow-odbc = "=26.0.0"
odbc-api = "=29.2.0"
serde = { version = "=1.0.229", features = ["derive"] }
