[package]
name = "desktop_tray"
version = "0.1.0"
edition = "2021"
publish = false

[dependencies]
serde = { version = "1", features = ["derive"] }
serde_json = "1"
zbus = { version = "5", default-features = false, features = ["blocking-api", "async-io"] }
libloading = "0.8"
log = "0.4"
