[package]
name = "gpui_android"
version = "0.1.0"
edition = "2021"
publish = false

[dependencies]
android-activity = { version = "*", features = ["native-activity"] }
anyhow = "1"
futures = "0.3"
jni = "*"
log = "0.4"
parking_lot = "0.12"
raw-window-handle = "0.6"
uuid = { version = "1", features = ["v4"] }
wgpu = { version = "*", default-features = false }
