[package]
name = "pr2"
version = "0.1.0"
edition = "2021"
publish = false

[dependencies]
x25519-dalek = { version = "2", features = ["static_secrets"] }
ed25519-dalek = "2"
chacha20poly1305 = "0.10"
rand = "0.8"
hex = "0.4"
tokio = { version = "1", features = ["rt-multi-thread", "net", "macros", "time", "io-util"] }
clap = { version = "4", features = ["derive", "env"] }
url = "2"
chrono = "0.4"
uuid = { version = "1", features = ["v4"] }
base64 = "0.22"
sqlx = { version = "0.8", default-features = false, features = ["runtime-tokio", "postgres", "uuid", "chrono"] }
