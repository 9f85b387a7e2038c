[package]
name = "spaceapi_server"
version = "0.1.0"
edition = "2021"
publish = false

[dependencies]
rustc-serialize = "0.3"
iron = "0.6"
router = "0.6"
urlencoded = "0.6"
redis = { version = "*", features = ["r2d2"] }
r2d2 = "0.8"
serde = { version = "1", features = ["derive"] }
serde_json = "1"
log = "0.4"
