[package]
name = "ked_core"
version = "0.1.0"
edition = "2021"
publish = false

[dependencies]
winit = { version = "=0.30.13", default-features = false, features = ["rwh_06", "x11", "android-native-activity"] }
wgpu = { version = "=22.1.0", default-features = false, features = ["wgsl"] }
pollster = "=0.3.0"
log = "=0.4.34"
env_logger = "=0.11.11"
android_logger = "*"
syn = { version = "=2.0.119", features = ["full"] }
quote = "=1.0.47"
proc-macro2 = "=1.0.107"
