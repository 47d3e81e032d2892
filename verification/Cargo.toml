[package]
name = "ftp_client"
version = "0.1.0"
edition = "2021"
publish = false

[dependencies]
dirs = "*"
serde = { version = "1", features = ["derive"] }
thiserror = "*"
tauri = { version = "2", default-features = false }
