[package]
name = "creator_authority"
version = "0.1.0"
edition = "2021"
publish = false

[dependencies]
async-trait = "0.1"
base64 = "=0.22.1"
blake3 = "=1.8.7"
pubky = "=0.15.0"
pubky-common = "=0.15.0"
serde_json = "=1.0.154"
sqlx = { version = "0.8", default-features = false, features = ["postgres", "runtime-tokio", "time", "json"] }
time = "=0.3.55"
tokio = { version = "1", features = ["macros", "rt"] }
url = "=2.5.8"
