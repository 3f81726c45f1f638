[package]
name = "fast_lightonocr"
version = "0.1.0"
edition = "2021"
publish = false

[dependencies]
serde = { version = "1", features = ["derive"] }
serde_json = "1"
tokenizers = "*"
image = { version = "0.25", default-features = false, features = ["png", "jpeg"] }
ort = { version = "2.0.0-rc.10", default-features = false, features = ["load-dynamic"] }
fastrand = "2"
thiserror = "2"
libloading = "0.8"
