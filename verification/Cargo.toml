[package]
name = "aw_server"
version = "0.1.0"
edition = "2021"
publish = false

[dependencies]
appdirs = "0.2"
serde_json = "1"
jni = "0.20"
log = "0.4"
android_logger = "0.13"
rocket = { version = "0.5", features = ["json"] }
rocket_cors = "0.6"
