[package]
name = "otpuac"
version = "0.1.0"
edition = "2021"
publish = false

[dependencies]
base64 = "0.22"
data-encoding = "2"
hmac = "0.12"
sha1 = "0.10"
subtle = "2"
rand = "0.8"
zeroize = "1"
serde = { version = "1", features = ["derive"] }
serde_json = "1"
clap = { version = "4", features = ["derive"] }
rpassword = "7"
thiserror = "1"
tracing = "0.1"
tracing-subscriber = { version = "0.3", features = ["env-filter"] }
