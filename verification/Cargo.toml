[package]
name = "host_probe"
version = "0.1.0"
edition = "2021"
publish = false

[dependencies]
serde = { version = "1", features = ["derive"] }
serde_json = "1"
sysinfo = "0.29"
tauri = { version = "2", default-features = false }
tokio = { version = "1", features = ["net", "io-util"] }
