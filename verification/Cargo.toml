[package]
name = "stretch_break"
version = "0.1.0"
edition = "2021"
publish = false

[dependencies]
chrono = "=0.4.45"
user-idle2 = "=0.6.2"
dbus = { version = "=0.9.12", features = ["vendored"] }
serde = { version = "=1.0.229", features = ["derive"] }
serde_json = "=1.0.151"
dirs = "=7.0.0"
