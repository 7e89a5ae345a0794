[package]
name = "chevalier-sandbox"
version = "0.1.0"
edition = "2021"
publish = false

[dependencies]
async-trait = "0.1"
axum = "0.8"
base64 = "0.22"
bytes = "1"
chrono = { version = "0.4", features = ["serde"] }
futures = "0.3"
libc = "0.2"
log = "0.4"
nix = { version = "*", features = ["fs", "user"] }
parking_lot = "*"
reqwest = { version = "0.12", default-features = false, features = ["json", "rustls-tls", "stream"] }
serde = { version = "1", features = ["derive"] }
serde_json = "1"
thiserror = "2"
tokio = { version = "1", features = ["fs", "io-util", "macros", "net", "rt-multi-thread", "sync", "time", "process"] }
tokio-stream = "0.1"
tokio-tungstenite = { version = "*", features = ["rustls-tls-webpki-roots"] }
tonic = { version = "*", default-features = false }
tracing = "0.1"
urlencoding = "2"
uuid = { version = "1", features = ["v4", "serde"] }
