[package]
name = "ironveil"
version = "0.1.0"
edition = "2021"
publish = false

[dependencies]
base64 = "0.22"
boringtun = "0.6"
rand = "0.8"
serde = { version = "1", features = ["derive"] }
toml = "0.8"
libc = "0.2"
tokio = { version = "1", features = ["full"] }
tun = { version = "0.6", features = ["async"] }
axum = "0.7"
tower-http = { version = "0.5", features = ["cors"] }
sqlx = { version = "0.8", default-features = false, features = ["postgres", "runtime-tokio"] }
dotenvy = "0.15"
