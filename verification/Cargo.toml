[package]
name = "gm_seedkey"
version = "0.1.0"
edition = "2021"
publish = false

[dependencies]
libloading = "*"
serde = { version = "*", features = ["derive"] }
tauri = { version = "*", default-features = false }
thiserror = "*"
winreg = "*"
