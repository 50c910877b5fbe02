[package]
name = "savesync"
version = "0.1.0"
edition = "2021"
publish = false

[dependencies]
mlua = { version = "=0.12.2", features = ["lua54", "vendored", "send"] }
zip = "=8.6.0"
serde = "=1.0.229"
serde_json = "=1.0.151"
notify-debouncer-full = "=0.7.0"
