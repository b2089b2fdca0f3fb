[package]
name = "power_daemon"
version = "0.1.0"
edition = "2021"
publish = false

[dependencies]
dbus = "0.9"
futures = "0.3"
serde = { version = "1", features = ["derive"] }
serde_json = "1"
tokio = { version = "1", features = ["fs", "io-util", "macros", "net", "rt-multi-thread"] }
