[package]
name = "serveriot"
version = "0.1.0"
edition = "2021"
publish = false

[dependencies]
jsonwebtoken = { version = "=11.1.0", features = ["rust_crypto"] }
bcrypt = "=0.19.3"
chrono = "=0.4.45"
serde = { version = "=1.0.229", features = ["derive"] }
serde_json = "=1.0.151"
sonic-rs = "=0.5.10"
ntex = { version = "=3.12.3", features = ["tokio"] }
ntex-mqtt = "=8.2.1"
deadpool-postgres = "=0.14.2"
tokio-postgres = { version = "=0.7.18", features = ["with-chrono-0_4"] }
tokio = { version = "=1.53.2", features = ["rt-multi-thread", "macros", "signal"] }
futures = "=0.3.34"
rand = "=0.10.3"
