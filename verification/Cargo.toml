[package]
name = "securecart"
version = "0.1.0"
edition = "2021"
publish = false

[dependencies]
getrandom = "=0.3.4"
argon2 = "=0.5.3"
totp-rs = { version = "=5.7.2", features = ["qr"] }
sha2 = "=0.10.9"
uuid = { version = "=1.29.0", features = ["v4", "serde"] }
serde = { version = "=1.0.229", features = ["derive"] }
serde_json = "=1.0.154"
thiserror = "=2.0.21"
time = { version = "=0.3.55", features = ["serde", "formatting"] }
tokio = { version = "=1.54.1", features = ["rt-multi-thread", "macros", "net"] }
axum = { version = "=0.8.9", features = ["multipart"] }
axum-extra = { version = "=0.10.3", features = ["cookie"] }
redis = { version = "=0.29.5", features = ["tokio-comp", "uuid"] }
sqlx = { version = "=0.8.6", default-features = false, features = ["postgres", "runtime-tokio", "uuid", "time", "derive"] }
object_store = { version = "0.11", features = ["aws"] }
base64 = "0.22"
